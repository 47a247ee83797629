//! The discrete preview sizes: a fit-to-box policy, the unscaled image and a
//! fixed ladder of zoom levels, with the short identifiers under which they
//! are stored and the steps between neighbouring levels.
//!
//! A zoom level is held as a whole number of hundredths, so `Resized(25)` is a
//! quarter of the original size and `Resized(200)` is twice the original size.

use vstd::prelude::*;
use vstd::string::StrSliceExecFns;

verus! {

/// How the preview of an image is sized.
#[derive(Clone, Copy, PartialEq, Eq, Structural, Debug)]
pub enum PreviewSize {
    /// Fit into a box of the given width and height, keeping the aspect
    /// ratio. A box of `(0, 0)` stands for "not yet known": the caller fills
    /// in the canvas before the preview is computed.
    BestFit(i32, i32),
    /// The image as it is: a scale of exactly one.
    OriginalSize,
    /// The image scaled by the given number of hundredths.
    Resized(u32),
}

/// Why an operation on a [`PreviewSize`] was refused.
#[derive(Clone, Copy, PartialEq, Eq, Structural, Debug)]
pub enum PreviewSizeError {
    /// The identifier names no preview size.
    InvalidCode,
    /// The scale has no identifier.
    UnrepresentableValue,
    /// There is no smaller level to step to.
    AtLowerBound,
    /// There is no larger level to step to.
    AtUpperBound,
}

/// Number of levels on the zoom ladder.
pub const LADDER_LEN: usize = 10;

/// The zoom ladder in ascending order. The unscaled image sits between
/// three quarters and one and a third.
pub open spec fn ladder() -> Seq<PreviewSize> {
    seq![
        PreviewSize::Resized(10),
        PreviewSize::Resized(25),
        PreviewSize::Resized(33),
        PreviewSize::Resized(50),
        PreviewSize::Resized(66),
        PreviewSize::Resized(75),
        PreviewSize::OriginalSize,
        PreviewSize::Resized(133),
        PreviewSize::Resized(150),
        PreviewSize::Resized(200),
    ]
}

/// The preview size that an identifier names, if it names one.
pub open spec fn spec_from_code(code: Seq<char>) -> Option<PreviewSize> {
    if code == "preview_fit_screen"@ {
        Some(PreviewSize::BestFit(0, 0))
    } else if code == "preview_10"@ {
        Some(PreviewSize::Resized(10))
    } else if code == "preview_25"@ {
        Some(PreviewSize::Resized(25))
    } else if code == "preview_33"@ {
        Some(PreviewSize::Resized(33))
    } else if code == "preview_50"@ {
        Some(PreviewSize::Resized(50))
    } else if code == "preview_66"@ {
        Some(PreviewSize::Resized(66))
    } else if code == "preview_75"@ {
        Some(PreviewSize::Resized(75))
    } else if code == "preview_100"@ {
        Some(PreviewSize::OriginalSize)
    } else if code == "preview_133"@ {
        Some(PreviewSize::Resized(133))
    } else if code == "preview_150"@ {
        Some(PreviewSize::Resized(150))
    } else if code == "preview_200"@ {
        Some(PreviewSize::Resized(200))
    } else {
        None
    }
}

/// True when `code` and `literal` hold the same characters. `len` is the
/// number of characters of `code`, counted once by the caller.
fn code_is(code: &str, len: usize, literal: &str) -> (same: bool)
    requires
        len == code@.len(),
    ensures
        same == (code@ == literal@),
{
    let n: usize = literal.unicode_len();
    if n != len {
        return false;
    }
    let mut i: usize = 0;
    while i < n
        invariant
            i <= n,
            n == literal@.len(),
            n == code@.len(),
            forall|j: int| 0 <= j < i ==> code@[j] == literal@[j],
        decreases n - i,
    {
        if code.get_char(i) != literal.get_char(i) {
            return false;
        }
        i += 1;
    }
    assert(code@ =~= literal@);
    true
}

impl PreviewSize {
    /// The place of this size on the zoom ladder, counted from the smallest
    /// level. `BestFit` and scales that are not one of the fixed levels have
    /// no place.
    pub open spec fn rung(self) -> Option<int> {
        match self {
            PreviewSize::BestFit(_, _) => None,
            PreviewSize::OriginalSize => Some(6),
            PreviewSize::Resized(percent) => if percent == 10 {
                Some(0)
            } else if percent == 25 {
                Some(1)
            } else if percent == 33 {
                Some(2)
            } else if percent == 50 {
                Some(3)
            } else if percent == 66 {
                Some(4)
            } else if percent == 75 {
                Some(5)
            } else if percent == 133 {
                Some(7)
            } else if percent == 150 {
                Some(8)
            } else if percent == 200 {
                Some(9)
            } else {
                None
            },
        }
    }

    /// True for the sizes that have an identifier: `BestFit` with any box,
    /// and every level of the zoom ladder.
    pub open spec fn is_canonical(self) -> bool {
        self is BestFit || self.rung() is Some
    }

    /// The scale in hundredths, where the size fixes one.
    pub open spec fn scale_percent(self) -> Option<int> {
        match self {
            PreviewSize::BestFit(_, _) => None,
            PreviewSize::OriginalSize => Some(100),
            PreviewSize::Resized(percent) => Some(percent as int),
        }
    }

    /// The identifier of this size, if it has one.
    pub open spec fn spec_to_code(self) -> Option<Seq<char>> {
        match self {
            PreviewSize::BestFit(_, _) => Some("preview_fit_screen"@),
            PreviewSize::OriginalSize => Some("preview_100"@),
            PreviewSize::Resized(percent) => if percent == 10 {
                Some("preview_10"@)
            } else if percent == 25 {
                Some("preview_25"@)
            } else if percent == 33 {
                Some("preview_33"@)
            } else if percent == 50 {
                Some("preview_50"@)
            } else if percent == 66 {
                Some("preview_66"@)
            } else if percent == 75 {
                Some("preview_75"@)
            } else if percent == 133 {
                Some("preview_133"@)
            } else if percent == 150 {
                Some("preview_150"@)
            } else if percent == 200 {
                Some("preview_200"@)
            } else {
                None
            },
        }
    }

    /// The next smaller size. From `BestFit` the step leads to the unscaled
    /// image; from a level of the ladder, to the level below it. The lowest
    /// level, and a scale that is not on the ladder, have nothing below.
    pub open spec fn spec_smaller(self) -> Result<PreviewSize, PreviewSizeError> {
        match self {
            PreviewSize::BestFit(_, _) => Ok(PreviewSize::OriginalSize),
            _ => match self.rung() {
                Some(i) if i > 0 => Ok(ladder()[i - 1]),
                _ => Err(PreviewSizeError::AtLowerBound),
            },
        }
    }

    /// The next larger size. From `BestFit` the step leads to the unscaled
    /// image; from a level of the ladder, to the level above it. The highest
    /// level, and a scale that is not on the ladder, have nothing above.
    pub open spec fn spec_larger(self) -> Result<PreviewSize, PreviewSizeError> {
        match self {
            PreviewSize::BestFit(_, _) => Ok(PreviewSize::OriginalSize),
            _ => match self.rung() {
                Some(i) if i + 1 < ladder().len() => Ok(ladder()[i + 1]),
                _ => Err(PreviewSizeError::AtUpperBound),
            },
        }
    }

    /// False exactly for a scale of a tenth or less.
    pub open spec fn spec_can_be_smaller(self) -> bool {
        !(self matches PreviewSize::Resized(percent) && percent <= 10)
    }

    /// False exactly for a scale of two or more.
    pub open spec fn spec_can_be_larger(self) -> bool {
        !(self matches PreviewSize::Resized(percent) && percent >= 200)
    }

    /// Steps down one level. Fails with `AtLowerBound` where no smaller level
    /// exists.
    pub fn smaller(self) -> (stepped: Result<PreviewSize, PreviewSizeError>)
        ensures
            stepped == self.spec_smaller(),
    {
        match self {
            PreviewSize::BestFit(_, _) => Ok(PreviewSize::OriginalSize),
            PreviewSize::OriginalSize => Ok(PreviewSize::Resized(75)),
            PreviewSize::Resized(percent) => {
                if percent == 200 {
                    Ok(PreviewSize::Resized(150))
                } else if percent == 150 {
                    Ok(PreviewSize::Resized(133))
                } else if percent == 133 {
                    Ok(PreviewSize::OriginalSize)
                } else if percent == 75 {
                    Ok(PreviewSize::Resized(66))
                } else if percent == 66 {
                    Ok(PreviewSize::Resized(50))
                } else if percent == 50 {
                    Ok(PreviewSize::Resized(33))
                } else if percent == 33 {
                    Ok(PreviewSize::Resized(25))
                } else if percent == 25 {
                    Ok(PreviewSize::Resized(10))
                } else {
                    Err(PreviewSizeError::AtLowerBound)
                }
            },
        }
    }

    /// True unless this is a scale of a tenth or less.
    pub fn can_be_smaller(&self) -> (possible: bool)
        ensures
            possible == self.spec_can_be_smaller(),
    {
        match self {
            PreviewSize::Resized(percent) => *percent > 10,
            _ => true,
        }
    }

    /// Steps up one level. Fails with `AtUpperBound` where no larger level
    /// exists.
    pub fn larger(self) -> (stepped: Result<PreviewSize, PreviewSizeError>)
        ensures
            stepped == self.spec_larger(),
    {
        match self {
            PreviewSize::BestFit(_, _) => Ok(PreviewSize::OriginalSize),
            PreviewSize::OriginalSize => Ok(PreviewSize::Resized(133)),
            PreviewSize::Resized(percent) => {
                if percent == 10 {
                    Ok(PreviewSize::Resized(25))
                } else if percent == 25 {
                    Ok(PreviewSize::Resized(33))
                } else if percent == 33 {
                    Ok(PreviewSize::Resized(50))
                } else if percent == 50 {
                    Ok(PreviewSize::Resized(66))
                } else if percent == 66 {
                    Ok(PreviewSize::Resized(75))
                } else if percent == 75 {
                    Ok(PreviewSize::OriginalSize)
                } else if percent == 133 {
                    Ok(PreviewSize::Resized(150))
                } else if percent == 150 {
                    Ok(PreviewSize::Resized(200))
                } else {
                    Err(PreviewSizeError::AtUpperBound)
                }
            },
        }
    }

    /// True unless this is a scale of two or more.
    pub fn can_be_larger(&self) -> (possible: bool)
        ensures
            possible == self.spec_can_be_larger(),
    {
        match self {
            PreviewSize::Resized(percent) => *percent < 200,
            _ => true,
        }
    }

    /// Reads a preview size from its identifier. `preview_fit_screen` gives
    /// `BestFit(0, 0)`. Any text that is not one of the eleven identifiers is
    /// refused with `InvalidCode`.
    pub fn from_code(code: &str) -> (parsed: Result<PreviewSize, PreviewSizeError>)
        ensures
            match spec_from_code(code@) {
                Some(size) => parsed == Ok::<PreviewSize, PreviewSizeError>(size),
                None => parsed == Err::<PreviewSize, PreviewSizeError>(
                    PreviewSizeError::InvalidCode,
                ),
            },
    {
        let len: usize = code.unicode_len();
        if code_is(code, len, "preview_fit_screen") {
            Ok(PreviewSize::BestFit(0, 0))
        } else if code_is(code, len, "preview_10") {
            Ok(PreviewSize::Resized(10))
        } else if code_is(code, len, "preview_25") {
            Ok(PreviewSize::Resized(25))
        } else if code_is(code, len, "preview_33") {
            Ok(PreviewSize::Resized(33))
        } else if code_is(code, len, "preview_50") {
            Ok(PreviewSize::Resized(50))
        } else if code_is(code, len, "preview_66") {
            Ok(PreviewSize::Resized(66))
        } else if code_is(code, len, "preview_75") {
            Ok(PreviewSize::Resized(75))
        } else if code_is(code, len, "preview_100") {
            Ok(PreviewSize::OriginalSize)
        } else if code_is(code, len, "preview_133") {
            Ok(PreviewSize::Resized(133))
        } else if code_is(code, len, "preview_150") {
            Ok(PreviewSize::Resized(150))
        } else if code_is(code, len, "preview_200") {
            Ok(PreviewSize::Resized(200))
        } else {
            Err(PreviewSizeError::InvalidCode)
        }
    }

    /// Writes the identifier of this size. A scale that is not one of the
    /// fixed levels is refused with `UnrepresentableValue`.
    pub fn to_code(self) -> (code: Result<String, PreviewSizeError>)
        ensures
            match self.spec_to_code() {
                Some(text) => code is Ok && code->Ok_0@ == text,
                None => code == Err::<String, PreviewSizeError>(
                    PreviewSizeError::UnrepresentableValue,
                ),
            },
    {
        match self {
            PreviewSize::BestFit(_, _) => Ok("preview_fit_screen".to_owned()),
            PreviewSize::OriginalSize => Ok("preview_100".to_owned()),
            PreviewSize::Resized(percent) => {
                if percent == 10 {
                    Ok("preview_10".to_owned())
                } else if percent == 25 {
                    Ok("preview_25".to_owned())
                } else if percent == 33 {
                    Ok("preview_33".to_owned())
                } else if percent == 50 {
                    Ok("preview_50".to_owned())
                } else if percent == 66 {
                    Ok("preview_66".to_owned())
                } else if percent == 75 {
                    Ok("preview_75".to_owned())
                } else if percent == 133 {
                    Ok("preview_133".to_owned())
                } else if percent == 150 {
                    Ok("preview_150".to_owned())
                } else if percent == 200 {
                    Ok("preview_200".to_owned())
                } else {
                    Err(PreviewSizeError::UnrepresentableValue)
                }
            },
        }
    }
}

/// What tells the eleven identifiers apart: their lengths and the characters
/// that follow the common prefix.
proof fn lemma_code_texts()
    ensures
        "preview_fit_screen"@.len() == 18,
        "preview_fit_screen"@[8] == 'f',
        "preview_10"@.len() == 10,
        "preview_10"@[8] == '1',
        "preview_10"@[9] == '0',
        "preview_25"@.len() == 10,
        "preview_25"@[8] == '2',
        "preview_25"@[9] == '5',
        "preview_33"@.len() == 10,
        "preview_33"@[8] == '3',
        "preview_33"@[9] == '3',
        "preview_50"@.len() == 10,
        "preview_50"@[8] == '5',
        "preview_50"@[9] == '0',
        "preview_66"@.len() == 10,
        "preview_66"@[8] == '6',
        "preview_66"@[9] == '6',
        "preview_75"@.len() == 10,
        "preview_75"@[8] == '7',
        "preview_75"@[9] == '5',
        "preview_100"@.len() == 11,
        "preview_100"@[8] == '1',
        "preview_100"@[9] == '0',
        "preview_100"@[10] == '0',
        "preview_133"@.len() == 11,
        "preview_133"@[8] == '1',
        "preview_133"@[9] == '3',
        "preview_133"@[10] == '3',
        "preview_150"@.len() == 11,
        "preview_150"@[8] == '1',
        "preview_150"@[9] == '5',
        "preview_150"@[10] == '0',
        "preview_200"@.len() == 11,
        "preview_200"@[8] == '2',
        "preview_200"@[9] == '0',
        "preview_200"@[10] == '0',
{
    reveal_strlit("preview_fit_screen");
    reveal_strlit("preview_10");
    reveal_strlit("preview_25");
    reveal_strlit("preview_33");
    reveal_strlit("preview_50");
    reveal_strlit("preview_66");
    reveal_strlit("preview_75");
    reveal_strlit("preview_100");
    reveal_strlit("preview_133");
    reveal_strlit("preview_150");
    reveal_strlit("preview_200");
}

/// An identifier that is read and written again comes back unchanged, so
/// reading it once more gives the same size.
pub proof fn lemma_code_round_trip(code: Seq<char>)
    requires
        spec_from_code(code) is Some,
    ensures
        spec_from_code(code)->Some_0.spec_to_code() == Some(code),
        spec_from_code(spec_from_code(code)->Some_0.spec_to_code()->Some_0) == spec_from_code(
            code,
        ),
{
    lemma_code_texts();
}

/// A size that is written and read again comes back unchanged, except that
/// `BestFit` forgets its box: the identifier does not carry it.
pub proof fn lemma_size_round_trip(size: PreviewSize)
    requires
        size.is_canonical(),
    ensures
        size.spec_to_code() is Some,
        spec_from_code(size.spec_to_code()->Some_0) == Some(
            if size is BestFit {
                PreviewSize::BestFit(0, 0)
            } else {
                size
            },
        ),
{
    lemma_code_texts();
}

/// Exactly the canonical sizes have an identifier, and exactly the eleven
/// identifiers name a size.
pub proof fn lemma_codes_cover_canonical_sizes(size: PreviewSize, code: Seq<char>)
    ensures
        size.spec_to_code() is Some <==> size.is_canonical(),
        spec_from_code(code) is Some ==> spec_from_code(code)->Some_0.is_canonical(),
        spec_from_code(code) is Some <==> exists|canonical: PreviewSize|
            canonical.spec_to_code() == Some(code),
{
    lemma_code_texts();
    if spec_from_code(code) is Some {
        lemma_code_round_trip(code);
    }
    if exists|canonical: PreviewSize| canonical.spec_to_code() == Some(code) {
        let canonical = choose|canonical: PreviewSize| canonical.spec_to_code() == Some(code);
        lemma_size_round_trip(canonical);
    }
}

/// A size stands on rung `i` exactly when the ladder holds it at index `i`.
pub proof fn lemma_rung_is_ladder_index(size: PreviewSize, i: int)
    ensures
        ladder().len() == LADDER_LEN,
        size.rung() == Some(i) <==> (0 <= i < ladder().len() && ladder()[i] == size),
{
}

/// The ladder ascends: a higher rung holds a strictly larger scale.
pub proof fn lemma_ladder_ascends(i: int, j: int)
    requires
        0 <= i < j < ladder().len(),
    ensures
        ladder()[i].scale_percent() is Some,
        ladder()[j].scale_percent() is Some,
        ladder()[i].scale_percent()->Some_0 < ladder()[j].scale_percent()->Some_0,
{
}

/// On the ladder, stepping up and then down leads back, except from the
/// highest level, from which no step leads up.
pub proof fn lemma_smaller_undoes_larger(size: PreviewSize)
    requires
        size.rung() is Some,
        size != PreviewSize::Resized(200),
    ensures
        size.spec_larger() is Ok,
        size.spec_larger()->Ok_0.spec_smaller() == Ok::<PreviewSize, PreviewSizeError>(size),
{
}

/// On the ladder, stepping down and then up leads back, except from the
/// lowest level, from which no step leads down.
pub proof fn lemma_larger_undoes_smaller(size: PreviewSize)
    requires
        size.rung() is Some,
        size != PreviewSize::Resized(10),
    ensures
        size.spec_smaller() is Ok,
        size.spec_smaller()->Ok_0.spec_larger() == Ok::<PreviewSize, PreviewSizeError>(size),
{
}

/// A step from a level of the ladder lands on the ladder, one rung away.
pub proof fn lemma_step_moves_one_rung(size: PreviewSize)
    requires
        size.rung() is Some,
    ensures
        size.spec_smaller() is Ok ==> size.spec_smaller()->Ok_0.rung() == Some(
            size.rung()->Some_0 - 1,
        ),
        size.spec_larger() is Ok ==> size.spec_larger()->Ok_0.rung() == Some(
            size.rung()->Some_0 + 1,
        ),
{
}

/// The ends of the ladder: among the canonical sizes only a tenth cannot
/// become smaller and only two cannot become larger, and a step is refused
/// exactly where the matching test says no.
pub proof fn lemma_ladder_ends(size: PreviewSize)
    requires
        size.is_canonical(),
    ensures
        size.spec_can_be_smaller() == (size != PreviewSize::Resized(10)),
        size.spec_can_be_larger() == (size != PreviewSize::Resized(200)),
        size.spec_smaller() is Ok <==> size.spec_can_be_smaller(),
        size.spec_larger() is Ok <==> size.spec_can_be_larger(),
        PreviewSize::Resized(10).spec_smaller() == Err::<PreviewSize, PreviewSizeError>(
            PreviewSizeError::AtLowerBound,
        ),
        PreviewSize::Resized(200).spec_larger() == Err::<PreviewSize, PreviewSizeError>(
            PreviewSizeError::AtUpperBound,
        ),
{
}

/// `BestFit` is no level of the ladder: whatever its box, a step in either
/// direction leads to the unscaled image.
pub proof fn lemma_best_fit_steps_to_original(width: i32, height: i32)
    ensures
        PreviewSize::BestFit(width, height).spec_smaller() == Ok::<PreviewSize, PreviewSizeError>(
            PreviewSize::OriginalSize,
        ),
        PreviewSize::BestFit(width, height).spec_larger() == Ok::<PreviewSize, PreviewSizeError>(
            PreviewSize::OriginalSize,
        ),
{
}

} // verus!

//! How the program is started.

use vstd::prelude::*;
use crate::bits::F32;
use crate::text::{trimmed, without_ends};

verus! {

/// The single 900: width of a preview window.
pub const PREVIEW_WIDTH_BITS: u32 = 0x4461_0000;

/// The single 700: height of a preview window.
pub const PREVIEW_HEIGHT_BITS: u32 = 0x442f_0000;

/// Why a window size was refused.
#[derive(Debug)]
pub enum WindowSizeError {
    /// There is no `x` in it.
    NoSeparator,
    /// The width is not a number, for this reason.
    Width(String),
    /// The height is not a number, for this reason.
    Height(String),
    NotFinite,
    NotPositive,
}

/// The first place of `c` in `text`, or its length where there is none.
pub open spec fn first_place(text: Seq<char>, c: char) -> int
    decreases text.len(),
{
    if text.len() == 0 || text[0] == c {
        0
    } else {
        1 + first_place(text.drop_first(), c)
    }
}

proof fn lemma_first_place(text: Seq<char>, c: char, place: int)
    requires
        0 <= place <= text.len(),
        forall|k: int| 0 <= k < place ==> text[k] != c,
        place < text.len() ==> text[place] == c,
    ensures
        first_place(text, c) == place,
    decreases text.len(),
{
    if place > 0 {
        assert(text[0] != c);
        let rest = text.drop_first();
        assert forall|k: int| 0 <= k < place - 1 implies rest[k] != c by {
            assert(rest[k] == text[k + 1]);
        }
        if place < text.len() {
            assert(rest[place - 1] == text[place]);
        }
        lemma_first_place(rest, c, place - 1);
    }
}

/// Parts a window size at its first `x` into width and height, both still text and
/// without the white space around them.
pub fn parse_window_size(text: &str) -> (parts: Result<(String, String), WindowSizeError>)
    ensures
        ({
            let place = first_place(text@, 'x');
            match parts {
                Ok((width, height)) => {
                    &&& place < text@.len()
                    &&& width@ == without_ends(text@.take(place))
                    &&& height@ == without_ends(text@.skip(place + 1))
                },
                Err(error) => error is NoSeparator && place == text@.len(),
            }
        }),
{
    let len: usize = text.unicode_len();
    let mut place: usize = 0;
    while place < len
        invariant
            place <= len,
            len == text@.len(),
            forall|k: int| 0 <= k < place ==> text@[k] != 'x',
        decreases len - place,
    {
        if text.get_char(place) == 'x' {
            proof {
                lemma_first_place(text@, 'x', place as int);
            }
            let width = text.substring_char(0, place);
            let height = text.substring_char(place + 1, len);
            assert(width@ =~= text@.take(place as int));
            assert(height@ =~= text@.skip(place + 1));
            return Ok((trimmed(width), trimmed(height)));
        }
        place = place + 1;
    }
    proof {
        lemma_first_place(text@, 'x', place as int);
    }
    Err(WindowSizeError::NoSeparator)
}

/// Accepts a window size: both numbers, both finite, and at least one each. The
/// first thing that is wrong is told, width before height.
pub fn accept_window_size(width: Result<F32, String>, height: Result<F32, String>) -> (size:
    Result<(F32, F32), WindowSizeError>)
    ensures
        match (width, height) {
            (Err(reason), _) => size == Err::<(F32, F32), _>(WindowSizeError::Width(reason)),
            (Ok(_), Err(reason)) => size == Err::<(F32, F32), _>(WindowSizeError::Height(reason)),
            (Ok(w), Ok(h)) => if !w.finite() || !h.finite() {
                size == Err::<(F32, F32), _>(WindowSizeError::NotFinite)
            } else if w.below(F32::one()) || h.below(F32::one()) {
                size == Err::<(F32, F32), _>(WindowSizeError::NotPositive)
            } else {
                size == Ok::<_, WindowSizeError>((w, h))
            },
        },
{
    let width = match width {
        Ok(width) => width,
        Err(reason) => {
            return Err(WindowSizeError::Width(reason));
        },
    };
    let height = match height {
        Ok(height) => height,
        Err(reason) => {
            return Err(WindowSizeError::Height(reason));
        },
    };
    if !width.is_finite() || !height.is_finite() {
        return Err(WindowSizeError::NotFinite);
    }
    if width.is_below(F32::one()) || height.is_below(F32::one()) {
        return Err(WindowSizeError::NotPositive);
    }
    Ok((width, height))
}

impl WindowSizeError {
    /// What to tell the user.
    pub open spec fn text(self) -> Seq<char> {
        match self {
            WindowSizeError::NoSeparator => "expected WIDTHxHEIGHT (e.g. 400x880)"@,
            WindowSizeError::Width(reason) => "invalid width: "@ + reason@,
            WindowSizeError::Height(reason) => "invalid height: "@ + reason@,
            WindowSizeError::NotFinite => "window dimensions must be finite"@,
            WindowSizeError::NotPositive => "window dimensions must be positive"@,
        }
    }

    /// What to tell the user.
    pub fn message(&self) -> (message: String)
        ensures
            message@ == self.text(),
    {
        match self {
            WindowSizeError::NoSeparator => "expected WIDTHxHEIGHT (e.g. 400x880)".to_owned(),
            WindowSizeError::Width(reason) => {
                let mut message = "invalid width: ".to_owned();
                message.append(reason.as_str());
                message
            },
            WindowSizeError::Height(reason) => {
                let mut message = "invalid height: ".to_owned();
                message.append(reason.as_str());
                message
            },
            WindowSizeError::NotFinite => "window dimensions must be finite".to_owned(),
            WindowSizeError::NotPositive => "window dimensions must be positive".to_owned(),
        }
    }
}

/// Size to open the window at, where it is fixed: only where a file is shown in
/// place of the camera, as the user asked or else at a standard size.
pub fn preview_window_size(has_source: bool, asked: Option<(F32, F32)>) -> (size: Option<
    (F32, F32),
>)
    ensures
        size == (if !has_source {
            None
        } else if asked is Some {
            asked
        } else {
            Some((F32 { bits: PREVIEW_WIDTH_BITS }, F32 { bits: PREVIEW_HEIGHT_BITS }))
        }),
{
    if !has_source {
        return None;
    }
    match asked {
        Some(size) => Some(size),
        None => Some((F32 { bits: PREVIEW_WIDTH_BITS }, F32 { bits: PREVIEW_HEIGHT_BITS })),
    }
}

/// Whether to ask the first camera for its formats ahead of time: where there is
/// one, and it has a path.
pub fn prewarms_formats(first_camera_path: Option<&str>) -> (answer: bool)
    ensures
        answer == (first_camera_path matches Some(path) && path@.len() > 0),
{
    match first_camera_path {
        Some(path) => path.unicode_len() > 0,
        None => false,
    }
}

/// A window size of two numbers with an `x` between them parts into these two,
/// whatever follows the first `x`.
pub proof fn law_sizes_part_at_the_first_x(width: Seq<char>, height: Seq<char>)
    requires
        forall|k: int| 0 <= k < width.len() ==> width[k] != 'x',
    ensures
        ({
            let text = width.push('x') + height;
            let place = first_place(text, 'x');
            &&& place < text.len()
            &&& text.take(place) == width
            &&& text.skip(place + 1) == height
        }),
{
    let text = width.push('x') + height;
    lemma_first_place(text, 'x', width.len() as int);
    assert(text.take(width.len() as int) =~= width);
    assert(text.skip(width.len() as int + 1) =~= height);
}

/// A size that is accepted is finite and at least one each way.
pub proof fn law_accepted_sizes_are_usable(width: F32)
    requires
        width.finite(),
        !width.below(F32::one()),
    ensures
        F32::one().at_most(width),
        F32::zero().below(width),
{
}

} // verus!

//! Desktop-shell integration helpers: modal dialog mapping, a settings
//! store model, and the tray-icon state machine.
//!
//! The platform calls themselves (showing a dialog, touching the registry,
//! pumping window messages) live outside this crate; everything here is the
//! decision logic those calls are driven by, stated over plain values.

use vstd::prelude::*;

pub mod registry;
pub mod shell;

verus! {

use vstd::string::StrSliceExecFns;

/// Platform style code for an information icon.
pub const MB_ICONINFORMATION: u32 = 0x40;

/// Platform style code for a question icon.
pub const MB_ICONQUESTION: u32 = 0x20;

/// Platform style code for a warning icon.
pub const MB_ICONWARNING: u32 = 0x30;

/// Platform style code for an error icon.
pub const MB_ICONERROR: u32 = 0x10;

/// Platform style code for a dialog with a single Ok button.
pub const MB_OK: u32 = 0x00;

/// Platform style code for a dialog with Yes and No buttons.
pub const MB_YESNO: u32 = 0x04;

/// Platform result code for the Ok button.
pub const IDOK: i32 = 1;

/// Platform result code for the Yes button.
pub const IDYES: i32 = 6;

/// Platform result code for the No button.
pub const IDNO: i32 = 7;

/// Icon class shown next to a dialog's message.
#[derive(Clone, Copy, Debug, PartialEq, Eq, Structural)]
pub enum DialogIcon {
    Info,
    Question,
    Warning,
    Error,
}

/// Button set offered by a dialog.
#[derive(Clone, Copy, Debug, PartialEq, Eq, Structural)]
pub enum DialogButtons {
    OkOnly,
    YesNo,
}

/// Outcome of a dismissed dialog.
#[derive(Clone, Copy, Debug, PartialEq, Eq, Structural)]
pub enum DialogResult {
    Okay,
    Yes,
    No,
}

/// The platform style code that selects the given icon class.
pub open spec fn spec_icon_style(icon: DialogIcon) -> u32 {
    match icon {
        DialogIcon::Info => MB_ICONINFORMATION,
        DialogIcon::Question => MB_ICONQUESTION,
        DialogIcon::Warning => MB_ICONWARNING,
        DialogIcon::Error => MB_ICONERROR,
    }
}

/// The platform style code that selects the given button set.
pub open spec fn spec_buttons_style(buttons: DialogButtons) -> u32 {
    match buttons {
        DialogButtons::OkOnly => MB_OK,
        DialogButtons::YesNo => MB_YESNO,
    }
}

/// Combined style word handed to the platform dialog call: the icon bits
/// and the button bits occupy disjoint positions, so the union is a sum.
pub open spec fn spec_dialog_style(icon: DialogIcon, buttons: DialogButtons) -> u32 {
    (spec_icon_style(icon) + spec_buttons_style(buttons)) as u32
}

/// Computes the platform style word for one dialog invocation.
pub fn dialog_style(icon: DialogIcon, buttons: DialogButtons) -> (style: u32)
    ensures
        style == spec_dialog_style(icon, buttons),
{
    let icon_bits: u32 = match icon {
        DialogIcon::Info => MB_ICONINFORMATION,
        DialogIcon::Question => MB_ICONQUESTION,
        DialogIcon::Warning => MB_ICONWARNING,
        DialogIcon::Error => MB_ICONERROR,
    };
    let button_bits: u32 = match buttons {
        DialogButtons::OkOnly => MB_OK,
        DialogButtons::YesNo => MB_YESNO,
    };
    icon_bits + button_bits
}

/// Which outcomes a button set can produce: `Okay` alone for the Ok set,
/// `Yes` or `No` alone for the Yes/No set.
pub open spec fn outcome_valid(buttons: DialogButtons, outcome: DialogResult) -> bool {
    match buttons {
        DialogButtons::OkOnly => outcome is Okay,
        DialogButtons::YesNo => outcome is Yes || outcome is No,
    }
}

/// The platform result code that reports each semantic outcome.
pub open spec fn spec_result_code(outcome: DialogResult) -> i32 {
    match outcome {
        DialogResult::Okay => IDOK,
        DialogResult::Yes => IDYES,
        DialogResult::No => IDNO,
    }
}

/// Semantic outcome of a platform result code under a given button set.
/// Only the codes that the button set can produce are recognized; any
/// other code is a contract violation reported as `None`.
pub open spec fn spec_result_from_code(buttons: DialogButtons, code: i32) -> Option<DialogResult> {
    match buttons {
        DialogButtons::OkOnly => if code == IDOK {
            Some(DialogResult::Okay)
        } else {
            None
        },
        DialogButtons::YesNo => if code == IDYES {
            Some(DialogResult::Yes)
        } else if code == IDNO {
            Some(DialogResult::No)
        } else {
            None
        },
    }
}

impl DialogResult {
    /// Maps the platform's raw dialog result code back to a semantic
    /// outcome. The button/outcome mapping is closed: a code outside the
    /// set belonging to `buttons` yields `None`, which the caller treats
    /// as a fatal programming-contract violation.
    pub fn from_code(buttons: DialogButtons, code: i32) -> (outcome: Option<DialogResult>)
        ensures
            outcome == spec_result_from_code(buttons, code),
    {
        match buttons {
            DialogButtons::OkOnly => {
                if code == IDOK {
                    Some(DialogResult::Okay)
                } else {
                    None
                }
            },
            DialogButtons::YesNo => {
                if code == IDYES {
                    Some(DialogResult::Yes)
                } else if code == IDNO {
                    Some(DialogResult::No)
                } else {
                    None
                }
            },
        }
    }
}

/// UTF-16 code units of one character: a single unit for characters below
/// 0x10000, a surrogate pair for the rest.
pub open spec fn utf16_units(c: char) -> Seq<u16> {
    let u = c as u32;
    if u < 0x10000 {
        seq![u as u16]
    } else {
        seq![
            (0xD800 + ((u - 0x10000) / 0x400)) as u16,
            (0xDC00 + ((u - 0x10000) % 0x400)) as u16,
        ]
    }
}

/// UTF-16 encoding of a character sequence, without a terminator.
pub open spec fn utf16_encode(s: Seq<char>) -> Seq<u16>
    decreases s.len(),
{
    if s.len() == 0 {
        Seq::empty()
    } else {
        utf16_units(s[0]) + utf16_encode(s.drop_first())
    }
}

/// The platform's native text representation of application text:
/// UTF-16 code units followed by one null terminator.
pub open spec fn utf16_z(s: Seq<char>) -> Seq<u16> {
    utf16_encode(s).push(0u16)
}

/// Appending one character to the text appends its code units to the encoding.
pub proof fn lemma_utf16_encode_push(s: Seq<char>, c: char)
    ensures
        utf16_encode(s.push(c)) == utf16_encode(s) + utf16_units(c),
    decreases s.len(),
{
    if s.len() == 0 {
        assert(s.push(c).drop_first() =~= Seq::<char>::empty());
        assert(s.push(c)[0] == c);
        assert(utf16_encode(Seq::<char>::empty()) =~= Seq::<u16>::empty());
        assert(utf16_encode(s.push(c)) =~= utf16_units(c) + utf16_encode(Seq::<char>::empty()));
        assert(utf16_encode(s.push(c)) =~= utf16_units(c));
        assert(utf16_encode(s) + utf16_units(c) =~= utf16_units(c));
    } else {
        assert(s.push(c).drop_first() =~= s.drop_first().push(c));
        lemma_utf16_encode_push(s.drop_first(), c);
        assert(utf16_encode(s.push(c)) =~= utf16_encode(s) + utf16_units(c));
    }
}

/// The encoding of concatenated text is the concatenation of the encodings.
pub proof fn lemma_utf16_encode_concat(a: Seq<char>, b: Seq<char>)
    ensures
        utf16_encode(a + b) == utf16_encode(a) + utf16_encode(b),
    decreases b.len(),
{
    if b.len() == 0 {
        assert(a + b =~= a);
        assert(utf16_encode(b) =~= Seq::<u16>::empty());
        assert(utf16_encode(a) + utf16_encode(b) =~= utf16_encode(a));
    } else {
        lemma_utf16_encode_concat(a, b.drop_last());
        lemma_utf16_encode_push(a + b.drop_last(), b.last());
        lemma_utf16_encode_push(b.drop_last(), b.last());
        assert((a + b.drop_last()).push(b.last()) =~= a + b);
        assert(b.drop_last().push(b.last()) =~= b);
        assert(utf16_encode(a + b) =~= utf16_encode(a) + utf16_encode(b));
    }
}

/// Appends the UTF-16 encoding of `s`, without a terminator, to `out`.
pub fn utf16_extend(out: &mut Vec<u16>, s: &str)
    ensures
        final(out)@ == old(out)@ + utf16_encode(s@),
{
    let ghost base: Seq<u16> = out@;
    let n = s.unicode_len();
    let mut i: usize = 0;
    while i < n
        invariant
            n == s@.len(),
            i <= n,
            out@ == base + utf16_encode(s@.subrange(0, i as int)),
        decreases n - i,
    {
        let c = s.get_char(i);
        proof {
            vstd::utf8::char_is_scalar(c);
            assert(s@.subrange(0, i as int).push(c) =~= s@.subrange(0, i + 1 as int));
            lemma_utf16_encode_push(s@.subrange(0, i as int), c);
        }
        let u = c as u32;
        if u < 0x10000 {
            out.push(u as u16);
            proof {
                assert((base + utf16_encode(s@.subrange(0, i as int))).push((u as u16)) =~= base
                    + utf16_encode(s@.subrange(0, i + 1 as int)));
            }
        } else {
            let v = u - 0x10000;
            let hi = 0xD800 + v / 0x400;
            let lo = 0xDC00 + v % 0x400;
            out.push(hi as u16);
            out.push(lo as u16);
            proof {
                assert((base + utf16_encode(s@.subrange(0, i as int))).push((hi as u16)).push(
                    (lo as u16),
                ) =~= base + utf16_encode(s@.subrange(0, i + 1 as int)));
            }
        }
        i = i + 1;
    }
    proof {
        assert(s@.subrange(0, n as int) =~= s@);
    }
}

/// Encodes application text into the platform's native text representation:
/// UTF-16 code units followed by one null terminator.
pub fn to_utf16(s: &str) -> (r: Vec<u16>)
    ensures
        r@ == utf16_z(s@),
{
    let mut out: Vec<u16> = Vec::new();
    utf16_extend(&mut out, s);
    out.push(0);
    out
}

/// Law: a presented dialog returns only outcomes valid for its button set
/// (`Okay` alone for the Ok set, `Yes`/`No` alone for the Yes/No set), and
/// it recognizes exactly the result codes those outcomes report.
pub proof fn lemma_outcome_in_button_set(buttons: DialogButtons, code: i32)
    ensures
        spec_result_from_code(buttons, code) matches Some(outcome) ==> outcome_valid(
            buttons,
            outcome,
        ),
        spec_result_from_code(buttons, code) is Some <==> (exists|o: DialogResult|
            outcome_valid(buttons, o) && spec_result_code(o) == code),
{
    match buttons {
        DialogButtons::OkOnly => {
            if code == IDOK {
                assert(outcome_valid(buttons, DialogResult::Okay) && spec_result_code(
                    DialogResult::Okay,
                ) == code);
            }
        },
        DialogButtons::YesNo => {
            if code == IDYES {
                assert(outcome_valid(buttons, DialogResult::Yes) && spec_result_code(
                    DialogResult::Yes,
                ) == code);
            } else if code == IDNO {
                assert(outcome_valid(buttons, DialogResult::No) && spec_result_code(
                    DialogResult::No,
                ) == code);
            }
        },
    }
}

} // verus!

use vstd::prelude::*;

use crate::error::{Error, Result, BAD_PARAMETERS};
use crate::value_text::{int_text, law_decimal_round_trip, parse_i32, parse_int, toggle_word};
use crate::widget::{shape_of, value_shape, ValueShape, WidgetType, WidgetValue};

verus! {

/// What writing a textual value to a widget comes to.
#[derive(Clone, Debug)]
pub enum WriteAction {
    /// The widget is read-only: nothing is written and nothing is pushed.
    Refused,
    /// The widget holds no value: the configuration is only pushed back.
    PushOnly,
    /// Set this text, then push the configuration back.
    SetText(String),
    /// Set this integer, then push the configuration back.
    SetInt(i32),
    /// Set the single-precision number that this text writes, then push the
    /// configuration back.
    SetRange(String),
}

pub open spec fn has_nul(s: Seq<char>) -> bool {
    exists|j: int| 0 <= j < s.len() && s[j] == '\0'
}

/// The error for a value text that the widget cannot take.
pub open spec fn bad_text<T>() -> Result<T> {
    Err(Error { code: BAD_PARAMETERS })
}

/// Whether `r` is the outcome of writing the text `s` to a widget of type `ty`.
pub open spec fn is_write_plan(ty: WidgetType, readonly: bool, s: Seq<char>, r: Result<WriteAction>) -> bool {
    if readonly {
        r == Ok::<WriteAction, Error>(WriteAction::Refused)
    } else {
        match shape_of(ty) {
            None => r == Ok::<WriteAction, Error>(WriteAction::PushOnly),
            Some(ValueShape::Select) | Some(ValueShape::Text) => if has_nul(s) {
                r == bad_text::<WriteAction>()
            } else {
                r is Ok && r->Ok_0 is SetText && r->Ok_0->SetText_0@ == s
            },
            Some(ValueShape::Number) => {
                let p = if ty == WidgetType::Toggle {
                    toggle_word(s)
                } else {
                    parse_i32(s)
                };
                match p {
                    Some(n) => r == Ok::<WriteAction, Error>(WriteAction::SetInt(n)),
                    None => r == bad_text::<WriteAction>(),
                }
            },
            Some(ValueShape::Range) => if has_nul(s) {
                r == bad_text::<WriteAction>()
            } else {
                r is Ok && r->Ok_0 is SetRange && r->Ok_0->SetRange_0@ == s
            },
        }
    }
}

/// Whether the text holds a NUL character, which no native string can carry.
pub fn contains_nul(text: &str) -> (r: bool)
    ensures
        r == has_nul(text@),
{
    let len = text.unicode_len();
    let mut i: usize = 0;
    while i < len
        invariant
            len == text@.len(),
            i <= len,
            forall|j: int| 0 <= j < i ==> text@[j] != '\0',
        decreases len - i,
    {
        if text.get_char(i) == '\0' {
            return true;
        }
        i = i + 1;
    }
    false
}

fn str_eq(text: &str, word: &str) -> (r: bool)
    ensures
        r == (text@ == word@),
{
    let n = text.unicode_len();
    if n != word.unicode_len() {
        return false;
    }
    let mut i: usize = 0;
    while i < n
        invariant
            n == text@.len(),
            n == word@.len(),
            i <= n,
            forall|j: int| 0 <= j < i ==> text@[j] == word@[j],
        decreases n - i,
    {
        if text.get_char(i) != word.get_char(i) {
            return false;
        }
        i = i + 1;
    }
    assert(text@ =~= word@);
    true
}

/// Reads a toggle word: `true`, `yes`, `on` or `1` switch on; `false`, `no`,
/// `off` or `0` switch off.
pub fn parse_toggle(text: &str) -> (r: Option<i32>)
    ensures
        r == toggle_word(text@),
{
    proof {
        reveal_strlit("true");
        reveal_strlit("yes");
        reveal_strlit("on");
        reveal_strlit("1");
        reveal_strlit("false");
        reveal_strlit("no");
        reveal_strlit("off");
        reveal_strlit("0");
        assert("true"@ =~= seq!['t', 'r', 'u', 'e']);
        assert("yes"@ =~= seq!['y', 'e', 's']);
        assert("on"@ =~= seq!['o', 'n']);
        assert("1"@ =~= seq!['1']);
        assert("false"@ =~= seq!['f', 'a', 'l', 's', 'e']);
        assert("no"@ =~= seq!['n', 'o']);
        assert("off"@ =~= seq!['o', 'f', 'f']);
        assert("0"@ =~= seq!['0']);
    }
    if str_eq(text, "true") || str_eq(text, "yes") || str_eq(text, "on") || str_eq(text, "1") {
        Some(1)
    } else if str_eq(text, "false") || str_eq(text, "no") || str_eq(text, "off") || str_eq(
        text,
        "0",
    ) {
        Some(0)
    } else {
        None
    }
}

/// Decides how the text `value_string` is written to a widget of type `ty`:
/// a read-only widget refuses it, a widget without a value is only pushed
/// back, a toggle takes a toggle word, a date a decimal integer, a range the
/// text of a number, and menus, radios and text fields the text itself.
/// Text that no native string can carry, or that does not read as the
/// widget's kind of value, is a `BAD_PARAMETERS` error.
pub fn plan_write(ty: WidgetType, readonly: bool, value_string: &str) -> (r: Result<WriteAction>)
    ensures
        is_write_plan(ty, readonly, value_string@, r),
{
    if readonly {
        return Ok(WriteAction::Refused);
    }
    match value_shape(ty) {
        None => Ok(WriteAction::PushOnly),
        Some(ValueShape::Select) | Some(ValueShape::Text) => {
            if contains_nul(value_string) {
                Err(Error::from_code(BAD_PARAMETERS))
            } else {
                Ok(WriteAction::SetText(value_string.to_owned()))
            }
        },
        Some(ValueShape::Number) => {
            let p = match ty {
                WidgetType::Toggle => parse_toggle(value_string),
                _ => parse_int(value_string),
            };
            match p {
                Some(n) => Ok(WriteAction::SetInt(n)),
                None => Err(Error::from_code(BAD_PARAMETERS)),
            }
        },
        Some(ValueShape::Range) => {
            if contains_nul(value_string) {
                Err(Error::from_code(BAD_PARAMETERS))
            } else {
                Ok(WriteAction::SetRange(value_string.to_owned()))
            }
        },
    }
}

/// The text that writes a value back: the current choice, the text, or the
/// integer in decimal.
pub open spec fn text_of_value(v: WidgetValue) -> Seq<char> {
    match v {
        WidgetValue::Select(cur, _) => cur@,
        WidgetValue::Text(t) => t@,
        WidgetValue::Number(n) => int_text(n as int),
        WidgetValue::Range(..) => Seq::empty(),
    }
}

/// Writing the text of a value read from a writable widget sets exactly that
/// value: the same text for choices and text fields, the same integer for
/// dates, and the same state for a toggle that reads 0 or 1.
pub proof fn law_write_round_trip(ty: WidgetType, v: WidgetValue, r: Result<WriteAction>)
    requires
        shape_of(ty) == Some(v.spec_shape()),
        v.spec_shape() != ValueShape::Range,
        !has_nul(text_of_value(v)),
        ty == WidgetType::Toggle ==> (v matches WidgetValue::Number(n) && (n == 0 || n == 1)),
        is_write_plan(ty, false, text_of_value(v), r),
    ensures
        v matches WidgetValue::Number(n) ==> r == Ok::<WriteAction, Error>(WriteAction::SetInt(n)),
        v matches WidgetValue::Text(t) ==> (r is Ok && r->Ok_0 is SetText && r->Ok_0->SetText_0@ == t@),
        v matches WidgetValue::Select(cur, _) ==> (r is Ok && r->Ok_0 is SetText && r->Ok_0->SetText_0@
            == cur@),
{
    if let WidgetValue::Number(n) = v {
        law_decimal_round_trip(n);
        if ty == WidgetType::Toggle {
            reveal_with_fuel(crate::value_text::nat_text, 2);
            assert(int_text(0) =~= seq!['0']);
            assert(int_text(1) =~= seq!['1']);
        }
    }
}

} // verus!

use vstd::prelude::*;
use crate::dict::{parse_dict, parse_dict_chars};
use crate::metadata::{
    MetaV, MetadataElem, NumDisplayStyle, NumParamStyle, ParamStyleV, StyleV, WidgetScale,
    WidgetStyle,
};
use crate::text::{chars_eq, chars_of, starts_with, string_of, sub_chars, trim, trim_chars};
use vstd::string::StrSliceExecFns;

verus! {

pub open spec fn prefixed(v: Seq<char>, w: Seq<char>) -> bool {
    w.len() <= v.len() && v.take(w.len() as int) == w
}

/// The style that a `style` value selects, if it is well formed.
pub open spec fn parse_style(v: Seq<char>) -> Option<StyleV> {
    if v == "knob"@ {
        Some(StyleV::Param(ParamStyleV::Knob))
    } else if v == "led"@ {
        Some(StyleV::Disp(NumDisplayStyle::Led))
    } else if v == "numerical"@ {
        Some(StyleV::Disp(NumDisplayStyle::Numerical))
    } else if prefixed(v, "menu"@) {
        match parse_dict(v.skip("menu"@.len() as int)) {
            Some(m) => Some(StyleV::Param(ParamStyleV::Menu(m))),
            None => None,
        }
    } else if prefixed(v, "radio"@) {
        match parse_dict(v.skip("radio"@.len() as int)) {
            Some(m) => Some(StyleV::Param(ParamStyleV::Radio(m))),
            None => None,
        }
    } else {
        None
    }
}

/// The metadata event that a key and a value stand for; `None` where the key
/// is unknown or the value malformed.
pub open spec fn parse_elem(key: Seq<char>, value: Seq<char>) -> Option<MetaV> {
    let k = trim(key);
    let v = trim(value);
    if k == "unit"@ {
        Some(MetaV::Unit(v))
    } else if k == "tooltip"@ {
        Some(MetaV::Tooltip(v))
    } else if k == "style"@ {
        match parse_style(v) {
            Some(s) => Some(MetaV::Style(s)),
            None => None,
        }
    } else if k == "scale"@ {
        if v == "lin"@ {
            Some(MetaV::Scale(WidgetScale::Lin))
        } else if v == "log"@ {
            Some(MetaV::Scale(WidgetScale::Log))
        } else if v == "exp"@ {
            Some(MetaV::Scale(WidgetScale::Exp))
        } else {
            None
        }
    } else if k == "hidden"@ {
        if v == "0"@ {
            Some(MetaV::Hidden(false))
        } else if v == "1"@ {
            Some(MetaV::Hidden(true))
        } else {
            None
        }
    } else {
        None
    }
}

pub open spec fn opt_elem_view(r: Option<MetadataElem>) -> Option<MetaV> {
    match r {
        Some(e) => Some(e@),
        None => None,
    }
}

fn parse_style_chars(v: &Vec<char>) -> (r: Option<WidgetStyle>)
    ensures
        match r {
            Some(s) => parse_style(v@) == Some(s@),
            None => parse_style(v@) is None,
        },
{
    if chars_eq(v, "knob") {
        Some(WidgetStyle::Param(NumParamStyle::Knob))
    } else if chars_eq(v, "led") {
        Some(WidgetStyle::Disp(NumDisplayStyle::Led))
    } else if chars_eq(v, "numerical") {
        Some(WidgetStyle::Disp(NumDisplayStyle::Numerical))
    } else if starts_with(v, "menu") {
        let rest = sub_chars(v, "menu".unicode_len(), v.len());
        assert(rest@ =~= v@.skip("menu"@.len() as int));
        match parse_dict_chars(&rest) {
            Ok(c) => Some(WidgetStyle::Param(NumParamStyle::Menu(c))),
            Err(_) => None,
        }
    } else if starts_with(v, "radio") {
        let rest = sub_chars(v, "radio".unicode_len(), v.len());
        assert(rest@ =~= v@.skip("radio"@.len() as int));
        match parse_dict_chars(&rest) {
            Ok(c) => Some(WidgetStyle::Param(NumParamStyle::Radio(c))),
            Err(_) => None,
        }
    } else {
        None
    }
}

/// Reads one metadata event from its key and value.
pub fn parse_metadata_elem(key: &str, value: &str) -> (r: Option<MetadataElem>)
    ensures
        opt_elem_view(r) == parse_elem(key@, value@),
{
    let k = trim_chars(&chars_of(key));
    let v = trim_chars(&chars_of(value));
    if chars_eq(&k, "unit") {
        Some(MetadataElem::Unit(string_of(&v)))
    } else if chars_eq(&k, "tooltip") {
        Some(MetadataElem::Tooltip(string_of(&v)))
    } else if chars_eq(&k, "style") {
        match parse_style_chars(&v) {
            Some(s) => Some(MetadataElem::Style(s)),
            None => None,
        }
    } else if chars_eq(&k, "scale") {
        if chars_eq(&v, "lin") {
            Some(MetadataElem::Scale(WidgetScale::Lin))
        } else if chars_eq(&v, "log") {
            Some(MetadataElem::Scale(WidgetScale::Log))
        } else if chars_eq(&v, "exp") {
            Some(MetadataElem::Scale(WidgetScale::Exp))
        } else {
            None
        }
    } else if chars_eq(&k, "hidden") {
        if chars_eq(&v, "0") {
            Some(MetadataElem::Hidden(false))
        } else if chars_eq(&v, "1") {
            Some(MetadataElem::Hidden(true))
        } else {
            None
        }
    } else {
        None
    }
}

} // verus!

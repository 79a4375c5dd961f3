//! The properties of an item, with the numbers written in them.
use vstd::prelude::*;
use crate::input::Property;
use crate::pattern::{cap_group, capture_group, regex_captures, regex_first_match};
use crate::records::{result_view, PropValues, PropValuesView, PropertyView, RustProperty};
use crate::requirements::first_cell;
use crate::text::{is_decimal, is_decimal_text};

verus! {

/// A number, maybe followed by `-` and a second number, such as `12-40`.
pub const PROPERTY_NUMBER_PATTERN: &'static str = "([0-9.]+)(?:-([0-9]+))?";
/// The text that stands for a number that a property value does not have.
pub const ZERO_TEXT: &'static str = "0.0";

pub const WEIRD_LAYOUT: &'static str = "weird layout check mod";
pub const VALUE_NOT_TEXT: &'static str = "none string value in property";
pub const NO_NUMBER_AFTER_NUMBERS: &'static str = "Found no caps after normal Propvalue on";
pub const PROPERTY_WITHOUT_VALUE: &'static str = "property has no value";
pub const PROPERTY_NOT_A_NUMBER: &'static str = "property value is not a number";

/// The numbers of a match of `PROPERTY_NUMBER_PATTERN`, `0.0` for a missing one.
pub open spec fn values_from_match(caps: Seq<Option<Seq<char>>>) -> Result<PropValuesView, Seq<char>> {
    let v1 = match cap_group(caps, 1) {
        Some(t) => t,
        None => ZERO_TEXT@,
    };
    let v2 = match cap_group(caps, 2) {
        Some(t) => t,
        None => ZERO_TEXT@,
    };
    if is_decimal_text(v1) && is_decimal_text(v2) {
        Ok(PropValuesView { val1: v1, val2: v2 })
    } else {
        Err(PROPERTY_NOT_A_NUMBER@)
    }
}

pub open spec fn with_value(acc: Option<Seq<PropValuesView>>, v: PropValuesView) -> Seq<PropValuesView> {
    match acc {
        Some(a) => a.push(v),
        None => seq![v],
    }
}

/// The numbers of the value lists of a property from list `i` on, after the
/// numbers `acc` already read: reading stops at the first value without a
/// number, which is an error once numbers were read.
pub open spec fn values_from(
    vs: Seq<Seq<Option<Seq<char>>>>,
    i: int,
    acc: Option<Seq<PropValuesView>>,
) -> Result<Option<Seq<PropValuesView>>, Seq<char>>
    decreases vs.len() - i,
{
    if i < 0 || i >= vs.len() {
        Ok(acc)
    } else if vs[i].len() == 0 {
        Err(PROPERTY_WITHOUT_VALUE@)
    } else {
        match vs[i][0] {
            None => Err(VALUE_NOT_TEXT@),
            Some(t) => match regex_first_match(PROPERTY_NUMBER_PATTERN@, t) {
                None => if acc is Some {
                    Err(NO_NUMBER_AFTER_NUMBERS@)
                } else {
                    Ok(None)
                },
                Some(caps) => match values_from_match(caps) {
                    Err(e) => Err(e),
                    Ok(pv) => values_from(vs, i + 1, Some(with_value(acc, pv))),
                },
            },
        }
    }
}

pub open spec fn then_prepend(done: Seq<PropertyView>, rest: Result<Seq<PropertyView>, Seq<char>>) -> Result<
    Seq<PropertyView>,
    Seq<char>,
> {
    match rest {
        Ok(r) => Ok(done + r),
        Err(e) => Err(e),
    }
}

/// The properties from index `i` on. A property without a name ends the
/// list: it becomes a property named by its first value cell.
pub open spec fn props_from(ps: Seq<Property>, i: int) -> Result<Seq<PropertyView>, Seq<char>>
    decreases ps.len() - i,
{
    if i < 0 || i >= ps.len() {
        Ok(Seq::empty())
    } else if ps[i].name@.len() == 0 {
        match first_cell(ps[i].values.deep_view()) {
            None => Err(PROPERTY_WITHOUT_VALUE@),
            Some(None) => Err(WEIRD_LAYOUT@),
            Some(Some(s)) => Ok(seq![PropertyView { name: s, values: None }]),
        }
    } else {
        match values_from(ps[i].values.deep_view(), 0, None) {
            Err(e) => Err(e),
            Ok(vals) => then_prepend(
                seq![PropertyView { name: ps[i].name@, values: vals }],
                props_from(ps, i + 1),
            ),
        }
    }
}

/// All properties of a list; no list gives no properties.
pub open spec fn properties_view(props: Option<Vec<Property>>) -> Result<Seq<PropertyView>, Seq<char>> {
    match props {
        None => Ok(Seq::empty()),
        Some(v) => props_from(v@, 0),
    }
}

/// The numbers of a match of `PROPERTY_NUMBER_PATTERN`.
pub fn values_from_captures(caps: &Vec<Option<String>>) -> (r: Result<PropValues, String>)
    ensures
        result_view(r) == values_from_match(caps.deep_view()),
{
    let val1 = match capture_group(caps, 1) {
        Some(t) => t,
        None => ZERO_TEXT.to_owned(),
    };
    let val2 = match capture_group(caps, 2) {
        Some(t) => t,
        None => ZERO_TEXT.to_owned(),
    };
    if is_decimal(val1.as_str()) && is_decimal(val2.as_str()) {
        Ok(PropValues { val1, val2 })
    } else {
        Err(PROPERTY_NOT_A_NUMBER.to_owned())
    }
}

/// Reads the numbers of the value lists of a property, as `values_from` states.
pub fn parse_prop_values(vs: &Vec<Vec<Option<String>>>) -> (r: Result<Option<Vec<PropValues>>, String>)
    ensures
        result_view(r) == values_from(vs.deep_view(), 0, None),
{
    let ghost cells = vs.deep_view();
    let mut list: Vec<PropValues> = Vec::new();
    let mut started = false;
    let mut i: usize = 0;
    while i < vs.len()
        invariant
            i <= vs.len(),
            cells == vs.deep_view(),
            !started ==> list.len() == 0,
            values_from(cells, 0, None) == values_from(
                cells,
                i as int,
                if started { Some(list.deep_view()) } else { None },
            ),
        decreases vs.len() - i,
    {
        let ghost acc: Option<Seq<PropValuesView>> = if started { Some(list.deep_view()) } else { None };
        assert(cells[i as int] == vs[i as int].deep_view());
        if vs[i].len() == 0 {
            return Err(PROPERTY_WITHOUT_VALUE.to_owned());
        }
        assert(cells[i as int][0] == vs[i as int][0].deep_view());
        let text = match &vs[i][0] {
            Some(t) => t,
            None => return Err(VALUE_NOT_TEXT.to_owned()),
        };
        match regex_captures(PROPERTY_NUMBER_PATTERN, text.as_str()) {
            None => {
                if started {
                    return Err(NO_NUMBER_AFTER_NUMBERS.to_owned());
                }
                let nothing: Option<Vec<PropValues>> = None;
                return Ok(nothing);
            },
            Some(caps) => match values_from_captures(&caps) {
                Err(e) => return Err(e),
                Ok(pv) => {
                    let ghost before = list.deep_view();
                    list.push(pv);
                    assert(list.deep_view() =~= with_value(acc, pv.deep_view())) by {
                        if !started {
                            assert(before =~= Seq::<PropValuesView>::empty());
                        }
                    }
                    started = true;
                },
            },
        }
        i = i + 1;
    }
    if started {
        Ok(Some(list))
    } else {
        Ok(None)
    }
}

/// Reads the properties of an item, as `properties_view` states: a property
/// without a name ends the list.
pub fn parse_props(props: Option<Vec<Property>>) -> (r: Result<Vec<RustProperty>, String>)
    ensures
        result_view(r) == properties_view(props),
{
    let ghost given = props;
    match props {
        None => {
            let empty: Vec<RustProperty> = Vec::new();
            assert(empty.deep_view() =~= Seq::<PropertyView>::empty());
            Ok(empty)
        },
        Some(x) => {
            let mut result: Vec<RustProperty> = Vec::new();
            assert(result.deep_view() =~= Seq::<PropertyView>::empty());
            assert(then_prepend(result.deep_view(), props_from(x@, 0)) =~= props_from(x@, 0)) by {
                match props_from(x@, 0) {
                    Ok(r) => {
                        assert(result.deep_view() + r =~= r);
                    },
                    Err(e) => {},
                }
            }
            let mut i: usize = 0;
            while i < x.len()
                invariant
                    i <= x.len(),
                    given == Some(x),
                    given == props,
                    props_from(x@, 0) == then_prepend(result.deep_view(), props_from(x@, i as int)),
                decreases x.len() - i,
            {
                let p = &x[i];
                if p.name.unicode_len() == 0 {
                    if p.values.len() == 0 || p.values[0].len() == 0 {
                        return Err(PROPERTY_WITHOUT_VALUE.to_owned());
                    }
                    assert(p.values.deep_view()[0][0] == p.values[0][0].deep_view());
                    let name = match &p.values[0][0] {
                        Some(s) => s.clone(),
                        None => return Err(WEIRD_LAYOUT.to_owned()),
                    };
                    let ghost before = result.deep_view();
                    let last = RustProperty { name, values: None };
                    result.push(last);
                    assert(result.deep_view() =~= before + seq![last.deep_view()]);
                    return Ok(result);
                }
                let values = match parse_prop_values(&p.values) {
                    Ok(v) => v,
                    Err(e) => return Err(e),
                };
                let ghost before = result.deep_view();
                let prop = RustProperty { name: p.name.clone(), values };
                result.push(prop);
                proof {
                    let head = seq![PropertyView { name: x@[i as int].name@, values: values.deep_view() }];
                    assert(result.deep_view() =~= before + head);
                    match props_from(x@, i + 1) {
                        Ok(r) => {
                            assert(before + (head + r) =~= result.deep_view() + r);
                        },
                        Err(e) => {},
                    }
                }
                i = i + 1;
            }
            assert(result.deep_view() + Seq::<PropertyView>::empty() =~= result.deep_view());
            Ok(result)
        },
    }
}

} // verus!

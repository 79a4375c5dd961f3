//! The requirements of an item.
use vstd::prelude::*;
use crate::input::Requirement;
use crate::records::{map_all, map_from, result_view, ReqView, RustReq};
use crate::text::{decimal_i16, parse_i16};

verus! {

pub const REQUIREMENT_NOT_TEXT: &'static str = "could not parse requirement";
pub const REQUIREMENT_WITHOUT_VALUE: &'static str = "requirement has no value";
pub const REQUIREMENT_OUT_OF_RANGE: &'static str =
    "requirement value is not a number in the range of i16";

/// The first cell of the first value list, where there is one.
pub open spec fn first_cell(values: Seq<Seq<Option<Seq<char>>>>) -> Option<Option<Seq<char>>> {
    if values.len() > 0 && values[0].len() > 0 {
        Some(values[0][0])
    } else {
        None
    }
}

/// A requirement: its name, and the number that its first value cell holds
/// as text.
pub open spec fn requirement_view(name: Seq<char>, values: Seq<Seq<Option<Seq<char>>>>) -> Result<
    ReqView,
    Seq<char>,
> {
    match first_cell(values) {
        None => Err(REQUIREMENT_WITHOUT_VALUE@),
        Some(None) => Err(REQUIREMENT_NOT_TEXT@),
        Some(Some(t)) => match decimal_i16(t) {
            None => Err(REQUIREMENT_OUT_OF_RANGE@),
            Some(v) => Ok(ReqView { name, val: v }),
        },
    }
}

pub open spec fn requirement_fn() -> spec_fn(Requirement) -> Result<ReqView, Seq<char>> {
    |r: Requirement| requirement_view(r.name@, r.values.deep_view())
}

/// All requirements of a list, in order; no list gives no requirements.
pub open spec fn requirements_view(r: Option<Vec<Requirement>>) -> Result<Seq<ReqView>, Seq<char>> {
    match r {
        None => Ok(Seq::empty()),
        Some(v) => map_all(v@, requirement_fn()),
    }
}

/// Reads one requirement.
pub fn parse_requirement(req: &Requirement) -> (r: Result<RustReq, String>)
    ensures
        result_view(r) == requirement_view(req.name@, req.values.deep_view()),
{
    if req.values.len() == 0 || req.values[0].len() == 0 {
        return Err(REQUIREMENT_WITHOUT_VALUE.to_owned());
    }
    assert(req.values.deep_view()[0] == req.values[0].deep_view());
    match &req.values[0][0] {
        Some(t) => match parse_i16(t.as_str()) {
            Some(v) => Ok(RustReq { name: req.name.clone(), val: v }),
            None => Err(REQUIREMENT_OUT_OF_RANGE.to_owned()),
        },
        None => Err(REQUIREMENT_NOT_TEXT.to_owned()),
    }
}

/// Reads every requirement of a list, in order; the first one that cannot
/// be read gives the error.
pub fn parse_requirements(r: Option<Vec<Requirement>>) -> (res: Result<Vec<RustReq>, String>)
    ensures
        result_view(res) == requirements_view(r),
{
    let ghost given = r;
    match r {
        None => {
            let empty: Vec<RustReq> = Vec::new();
            assert(empty.deep_view() =~= Seq::<ReqView>::empty());
            Ok(empty)
        },
        Some(v) => {
            let mut result: Vec<RustReq> = Vec::new();
            assert(result.deep_view() =~= Seq::<ReqView>::empty());
            let mut i: usize = 0;
            while i < v.len()
                invariant
                    i <= v.len(),
                    given == Some(v),
                    given == r,
                    map_all(v@, requirement_fn()) == map_from(
                        v@,
                        requirement_fn(),
                        i as int,
                        result.deep_view(),
                    ),
                decreases v.len() - i,
            {
                let ghost f = requirement_fn();
                assert(f(v@[i as int]) == requirement_view(v[i as int].name@, v[i as int].values.deep_view()));
                match parse_requirement(&v[i]) {
                    Ok(q) => {
                        let ghost before = result.deep_view();
                        result.push(q);
                        assert(result.deep_view() =~= before.push(q.deep_view()));
                    },
                    Err(e) => return Err(e),
                }
                i = i + 1;
            }
            assert(map_from(v@, requirement_fn(), i as int, result.deep_view())
                == Ok::<Seq<ReqView>, Seq<char>>(result.deep_view()));
            Ok(result)
        },
    }
}

} // verus!

//! Classification of a stage script's result: plain data, or a control
//! signal carried under the reserved `_aipack_` marker key. The marker
//! holds a `kind` tag (`Skip`, `DataResponse`, or another signal name)
//! and an optional `data` payload; agent data must avoid the marker key.
use vstd::prelude::*;

use crate::value::{DataValue, ValView};

verus! {

/// A classified stage result.
#[derive(Debug)]
pub enum Classified {
    /// No marker: the value itself is the stage's data.
    Original(DataValue),
    /// Stop this input with no output, with an optional reason.
    Skip { reason: Option<String> },
    /// Override the input value, data payload and/or agent options.
    DataResponse {
        input: Option<DataValue>,
        data: Option<DataValue>,
        options: Option<DataValue>,
    },
    /// A marker of a kind this stage does not support.
    Other(String),
}

/// The shape of a classified result.
pub enum ClassifiedV {
    Original(ValView),
    Skip(Option<Seq<char>>),
    DataResponse(Option<ValView>, Option<ValView>, Option<ValView>),
    Other(Seq<char>),
}

impl Classified {
    pub open spec fn cv(self) -> ClassifiedV {
        match self {
            Classified::Original(v) => ClassifiedV::Original(v@),
            Classified::Skip { reason } => ClassifiedV::Skip(
                match reason {
                    Some(r) => Some(r@),
                    None => None,
                },
            ),
            Classified::DataResponse { input, data, options } => ClassifiedV::DataResponse(
                match input {
                    Some(v) => Some(v@),
                    None => None,
                },
                match data {
                    Some(v) => Some(v@),
                    None => None,
                },
                match options {
                    Some(v) => Some(v@),
                    None => None,
                },
            ),
            Classified::Other(name) => ClassifiedV::Other(name@),
        }
    }
}

/// The optional `reason` of a skip payload; an error when the payload
/// or its reason has the wrong shape.
pub open spec fn spec_skip_reason(payload: Option<ValView>) -> Result<Option<Seq<char>>, ()> {
    match payload {
        None => Ok(None),
        Some(p) => {
            if !(p is Obj) {
                Err(())
            } else {
                match p.get_key("reason"@) {
                    None => Ok(None),
                    Some(ValView::Str(r)) => Ok(Some(r)),
                    Some(ValView::Null) => Ok(None),
                    Some(_) => Err(()),
                }
            }
        },
    }
}

/// What classification yields on a value: `Original` without the
/// marker; with it, the signal the `kind` tag names; an error when the
/// marker, its `kind`, or a skip payload has the wrong shape.
pub open spec fn spec_classify(v: ValView) -> Result<ClassifiedV, ()> {
    match v.get_key("_aipack_"@) {
        None => Ok(ClassifiedV::Original(v)),
        Some(marker) => {
            if !(marker is Obj) {
                Err(())
            } else {
                match marker.get_key("kind"@) {
                    Some(ValView::Str(kind)) => {
                        let payload = marker.get_key("data"@);
                        if kind == "Skip"@ {
                            match spec_skip_reason(payload) {
                                Ok(reason) => Ok(ClassifiedV::Skip(reason)),
                                Err(_) => Err(()),
                            }
                        } else if kind == "DataResponse"@ {
                            match payload {
                                None => Ok(ClassifiedV::DataResponse(None, None, None)),
                                Some(p) => if p is Obj {
                                    Ok(
                                        ClassifiedV::DataResponse(
                                            p.get_key("input"@),
                                            p.get_key("data"@),
                                            p.get_key("options"@),
                                        ),
                                    )
                                } else {
                                    Err(())
                                },
                            }
                        } else {
                            Ok(ClassifiedV::Other(kind))
                        }
                    },
                    _ => Err(()),
                }
            }
        },
    }
}

/// Classifies a stage result; consumes the value and returns it intact
/// when it is plain data.
pub fn classify(v: DataValue) -> (r: Result<Classified, ()>)
    ensures
        match r {
            Ok(c) => spec_classify(v@) == Ok::<ClassifiedV, ()>(c.cv()),
            Err(_) => spec_classify(v@) is Err,
        },
{
    let has_marker = match v.get("_aipack_") {
        Some(_) => true,
        None => false,
    };
    if !has_marker {
        return Ok(Classified::Original(v));
    }
    let marker_is_obj = match v.get("_aipack_") {
        Some(DataValue::Obj(_)) => true,
        _ => false,
    };
    if !marker_is_obj {
        return Err(());
    }
    let kind: String = match v.get("_aipack_") {
        Some(marker) => match marker.get("kind") {
            Some(DataValue::Str(k)) => k.clone(),
            _ => {
                return Err(());
            },
        },
        None => {
            return Err(());
        },
    };
    let marker = match v.get("_aipack_") {
        Some(m) => m,
        None => {
            return Err(());
        },
    };
    if crate::text::str_eq(kind.as_str(), "Skip") {
        let reason: Option<String> = match marker.get("data") {
            None => None,
            Some(payload) => match payload {
                DataValue::Obj(_) => match payload.get("reason") {
                    None => None,
                    Some(DataValue::Str(r)) => Some(r.clone()),
                    Some(DataValue::Null) => None,
                    Some(_) => {
                        return Err(());
                    },
                },
                _ => {
                    return Err(());
                },
            },
        };
        Ok(Classified::Skip { reason })
    } else if crate::text::str_eq(kind.as_str(), "DataResponse") {
        match marker.get("data") {
            None => Ok(Classified::DataResponse { input: None, data: None, options: None }),
            Some(payload) => match payload {
                DataValue::Obj(_) => {
                    let input = match payload.get("input") {
                        Some(x) => Some(x.deep_clone()),
                        None => None,
                    };
                    let data = match payload.get("data") {
                        Some(x) => Some(x.deep_clone()),
                        None => None,
                    };
                    let options = match payload.get("options") {
                        Some(x) => Some(x.deep_clone()),
                        None => None,
                    };
                    Ok(Classified::DataResponse { input, data, options })
                },
                _ => Err(()),
            },
        }
    } else {
        Ok(Classified::Other(kind))
    }
}

} // verus!

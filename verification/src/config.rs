//! The recognized packaging configuration and its structural decode.

use vstd::prelude::*;

use crate::error::PackError;
use crate::value::{string_views, table_get, ValueTree};

verus! {

/// The recognized configuration block of a manifest.
///
/// Both fields are optional lists of strings; an absent key decodes to
/// `None`, which consumers treat like an empty list.
#[derive(Debug, PartialEq)]
pub struct PackConfig {
    /// Files to carry along besides build outputs.
    pub files: Option<Vec<String>>,
    /// Reserved for future use; not interpreted here.
    pub default_packers: Option<Vec<String>>,
}

impl PackConfig {
    /// The `files` field as character sequences.
    pub open spec fn files_view(self) -> Option<Seq<Seq<char>>> {
        match self.files {
            Option::Some(v) => Some(string_views(v@)),
            Option::None => None,
        }
    }

    /// The `default_packers` field as character sequences.
    pub open spec fn default_packers_view(self) -> Option<Seq<Seq<char>>> {
        match self.default_packers {
            Option::Some(v) => Some(string_views(v@)),
            Option::None => None,
        }
    }
}

/// The characters of a string scalar; other kinds read as empty.
pub open spec fn str_view_of(v: ValueTree) -> Seq<char> {
    match v {
        ValueTree::Str(s) => s@,
        _ => Seq::empty(),
    }
}

/// How a value decodes as a list of strings: an array whose elements are all
/// string scalars, and nothing else.
pub open spec fn spec_string_list(v: ValueTree) -> Option<Seq<Seq<char>>> {
    match v {
        ValueTree::Array(items) => if forall|i: int|
            0 <= i < items@.len() ==> #[trigger] items@[i] is Str {
            Some(items@.map_values(|x: ValueTree| str_view_of(x)))
        } else {
            None
        },
        _ => None,
    }
}

/// How one optional field decodes from a table: `None` marks a shape error,
/// `Some(None)` an absent key, `Some(Some(l))` the list `l`.
pub open spec fn spec_field(
    es: Seq<(String, ValueTree)>,
    key: Seq<char>,
) -> Option<Option<Seq<Seq<char>>>> {
    match table_get(es, key) {
        Option::None => Some(None),
        Option::Some(v) => match spec_string_list(v) {
            Option::None => None,
            Option::Some(l) => Some(Some(l)),
        },
    }
}

/// How a value decodes as a `PackConfig`: a table whose `files` and
/// `default-packers` keys, where present, hold lists of strings; other keys
/// are ignored. `None` marks a shape error.
pub open spec fn spec_pack_config(v: ValueTree) -> Option<
    (Option<Seq<Seq<char>>>, Option<Seq<Seq<char>>>),
> {
    match v {
        ValueTree::Table(es) => match (spec_field(es@, "files"@), spec_field(
            es@,
            "default-packers"@,
        )) {
            (Option::Some(f), Option::Some(d)) => Some((f, d)),
            _ => None,
        },
        _ => None,
    }
}

/// Decode a value as a list of strings, moving the strings out.
#[verifier::loop_isolation(false)]
fn decode_string_list(v: ValueTree) -> (r: Result<Vec<String>, PackError>)
    ensures
        spec_string_list(v) matches Some(l) ==> r matches Ok(out) && string_views(out@) == l,
        spec_string_list(v) is None ==> r == Err::<Vec<String>, PackError>(PackError::DecodeShape),
{
    let ghost gv = v;
    match v {
        ValueTree::Array(mut items) => {
            let ghost orig = items@;
            proof {
                assert(gv is Array && gv->Array_0@ == orig);
            }
            let mut out: Vec<String> = Vec::new();
            while items.len() > 0
                invariant
                    out@.len() + items@.len() == orig.len(),
                    forall|j: int| 0 <= j < out@.len() ==> (#[trigger] orig[j]) is Str,
                    forall|j: int|
                        0 <= j < out@.len() ==> (#[trigger] out@[j])@ == str_view_of(orig[j]),
                    items@ =~= orig.skip(out@.len() as int),
                decreases items@.len(),
            {
                let ghost k = out@.len() as int;
                proof {
                    assert(items@[0] == orig[k]);
                }
                let head = items.remove(0);
                proof {
                    assert(head == orig[k]);
                }
                match head {
                    ValueTree::Str(s) => {
                        out.push(s);
                        proof {
                            assert(orig[k] is Str && str_view_of(orig[k]) == s@);
                            assert(out@[k] == s);
                            assert(items@ =~= orig.skip(out@.len() as int));
                        }
                    },
                    _ => {
                        proof {
                            assert(0 <= k < gv->Array_0@.len());
                            assert(!(gv->Array_0@[k] is Str));
                            assert(spec_string_list(gv) is None);
                        }
                        return Err(PackError::DecodeShape);
                    },
                }
            }
            proof {
                assert(forall|j: int|
                    0 <= j < gv->Array_0@.len() ==> #[trigger] gv->Array_0@[j] is Str);
                if spec_string_list(gv) is Some {
                    assert(string_views(out@) =~= spec_string_list(gv)->Some_0);
                }
            }
            Ok(out)
        },
        _ => Err(PackError::DecodeShape),
    }
}

/// Decode the recognized metadata block, consuming it.
///
/// A table decodes field by field: an absent key reads as "unspecified", a
/// present key must hold a list of strings, and unrecognized keys are
/// ignored. Anything but a table, or a present key of the wrong shape, is a
/// shape error.
#[verifier::loop_isolation(false)]
pub fn decode_pack_config(v: ValueTree) -> (r: Result<PackConfig, PackError>)
    ensures
        spec_pack_config(v) matches Some(m) ==> r matches Ok(c) && c.files_view() == m.0
            && c.default_packers_view() == m.1,
        spec_pack_config(v) is None ==> r == Err::<PackConfig, PackError>(PackError::DecodeShape),
{
    let ghost gv = v;
    match v {
        ValueTree::Table(mut es) => {
            let ghost orig = es@;
            proof {
                assert(gv is Table && gv->Table_0@ == orig);
                reveal_strlit("files");
                reveal_strlit("default-packers");
                assert("files"@.len() == 5);
                assert("default-packers"@.len() == 15);
                assert("files"@ != "default-packers"@);
            }
            let files_key: String = "files".to_owned();
            let dp_key: String = "default-packers".to_owned();
            let mut files_v: Option<ValueTree> = None;
            let mut dp_v: Option<ValueTree> = None;
            let ghost mut k: int = 0;
            assert(orig.skip(0) =~= orig);
            while es.len() > 0
                invariant
                    files_key@ == "files"@,
                    dp_key@ == "default-packers"@,
                    "files"@ != "default-packers"@,
                    0 <= k <= orig.len(),
                    es@ == orig.skip(k),
                    table_get(orig, "files"@) == (match files_v {
                        Option::Some(fv) => Some(fv),
                        Option::None => table_get(orig.skip(k), "files"@),
                    }),
                    table_get(orig, "default-packers"@) == (match dp_v {
                        Option::Some(dv) => Some(dv),
                        Option::None => table_get(orig.skip(k), "default-packers"@),
                    }),
                decreases es@.len(),
            {
                proof {
                    assert(es@[0] == orig.skip(k)[0]);
                    assert(orig.skip(k).skip(1) =~= orig.skip(k + 1));
                }
                let entry = es.remove(0);
                proof {
                    assert(es@ =~= orig.skip(k + 1));
                }
                if entry.0 == files_key {
                    if files_v.is_none() {
                        files_v = Some(entry.1);
                    }
                } else if entry.0 == dp_key {
                    if dp_v.is_none() {
                        dp_v = Some(entry.1);
                    }
                }
                proof {
                    k = k + 1;
                }
            }
            proof {
                assert(orig.skip(k) =~= Seq::<(String, ValueTree)>::empty());
            }
            let files = match files_v {
                Option::None => None,
                Option::Some(fv) => match decode_string_list(fv) {
                    Ok(l) => Some(l),
                    Err(e) => {
                        return Err(e);
                    },
                },
            };
            let default_packers = match dp_v {
                Option::None => None,
                Option::Some(dv) => match decode_string_list(dv) {
                    Ok(l) => Some(l),
                    Err(e) => {
                        return Err(e);
                    },
                },
            };
            Ok(PackConfig { files, default_packers })
        },
        _ => Err(PackError::DecodeShape),
    }
}

} // verus!

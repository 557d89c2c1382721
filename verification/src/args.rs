//! Serializing the fields of a command into its command-line tokens.
//!
//! A field contributes tokens according to its declared flag names and its
//! value: a set boolean flag contributes its flag token alone, text and
//! numbers contribute the flag token followed by the rendered value, and the
//! long form always wins over the short one.

use vstd::prelude::*;

use crate::command_builder::arg_views;
use crate::text::{spec_u64_string, u64_to_string};

verus! {

/// Converts a value into the command-line tokens that describe it.
pub trait ToArgs {
    fn to_args(&self) -> Vec<String>;
}

/// The value one field contributes to the command line.
#[derive(Debug)]
pub enum FieldValue {
    Flag(bool),
    Text(String),
    Number(u64),
}

/// One field of a command: the flag names it was declared with, and its
/// value.
#[derive(Debug)]
pub struct ArgField {
    pub long: Option<String>,
    pub short: Option<char>,
    pub value: FieldValue,
}

impl ArgField {
    /// Packs one field description.
    pub fn new(long: Option<String>, short: Option<char>, value: FieldValue) -> (r: ArgField)
        ensures
            r.long == long,
            r.short == short,
            r.value == value,
    {
        ArgField { long, short, value }
    }
}

/// The tokens one field contributes, in order.
pub open spec fn spec_field_tokens(f: ArgField) -> Seq<Seq<char>> {
    match f.value {
        FieldValue::Flag(b) => {
            if !b {
                Seq::empty()
            } else if f.long is Some {
                seq!["--"@ + f.long->0@]
            } else if f.short is Some {
                seq!["-"@.push(f.short->0)]
            } else {
                Seq::empty()
            }
        },
        FieldValue::Text(s) => {
            if f.long is Some {
                seq!["--"@ + f.long->0@, s@]
            } else if f.short is Some {
                seq!["-"@.push(f.short->0), s@]
            } else {
                seq![s@]
            }
        },
        FieldValue::Number(n) => {
            if f.long is Some {
                seq!["--"@ + f.long->0@, spec_u64_string(n as nat)]
            } else if f.short is Some {
                seq!["-"@.push(f.short->0), spec_u64_string(n as nat)]
            } else {
                Seq::empty()
            }
        },
    }
}

/// All tokens of a field list, in declaration order.
pub open spec fn spec_args_tokens(fields: Seq<ArgField>) -> Seq<Seq<char>>
    decreases fields.len(),
{
    if fields.len() == 0 {
        Seq::empty()
    } else {
        spec_args_tokens(fields.drop_last()) + spec_field_tokens(fields.last())
    }
}

/// Renders a long flag token.
fn long_token(name: &String) -> (r: String)
    ensures
        r@ == "--"@ + name@,
{
    let mut r = String::from_str("--");
    r.append(name.as_str());
    r
}

/// Renders a short flag token.
fn short_token(c: char) -> (r: String)
    ensures
        r@ == "-"@.push(c),
{
    let mut r = String::from_str("-");
    r.push(c);
    r
}

/// Appends the tokens of one field.
fn push_field_tokens(r: &mut Vec<String>, f: &ArgField)
    ensures
        arg_views(final(r)@) == arg_views(old(r)@) + spec_field_tokens(*f),
{
    let ghost base = arg_views(old(r)@);
    match &f.value {
        FieldValue::Flag(b) => {
            if *b {
                match &f.long {
                    Some(l) => {
                        let t = long_token(l);
                        let ghost tv = t@;
                        r.push(t);
                        proof {
                            assert(arg_views(r@) =~= base + seq![tv]);
                        }
                    },
                    None => {
                        match &f.short {
                            Some(c) => {
                                let t = short_token(*c);
                                let ghost tv = t@;
                                r.push(t);
                                proof {
                                    assert(arg_views(r@) =~= base + seq![tv]);
                                }
                            },
                            None => {
                                proof {
                                    assert(arg_views(r@) =~= base + spec_field_tokens(*f));
                                }
                            },
                        }
                    },
                }
            } else {
                proof {
                    assert(arg_views(r@) =~= base + spec_field_tokens(*f));
                }
            }
        },
        FieldValue::Text(s) => {
            match &f.long {
                Some(l) => {
                    let t = long_token(l);
                    let ghost tv = t@;
                    r.push(t);
                    r.push(s.clone());
                    proof {
                        assert(arg_views(r@) =~= base + seq![tv, s@]);
                    }
                },
                None => {
                    match &f.short {
                        Some(c) => {
                            let t = short_token(*c);
                            let ghost tv = t@;
                            r.push(t);
                            r.push(s.clone());
                            proof {
                                assert(arg_views(r@) =~= base + seq![tv, s@]);
                            }
                        },
                        None => {
                            r.push(s.clone());
                            proof {
                                assert(arg_views(r@) =~= base + seq![s@]);
                            }
                        },
                    }
                },
            }
        },
        FieldValue::Number(n) => {
            match &f.long {
                Some(l) => {
                    let t = long_token(l);
                    let ghost tv = t@;
                    let v = u64_to_string(*n);
                    let ghost vv = v@;
                    r.push(t);
                    r.push(v);
                    proof {
                        assert(arg_views(r@) =~= base + seq![tv, vv]);
                    }
                },
                None => {
                    match &f.short {
                        Some(c) => {
                            let t = short_token(*c);
                            let ghost tv = t@;
                            let v = u64_to_string(*n);
                            let ghost vv = v@;
                            r.push(t);
                            r.push(v);
                            proof {
                                assert(arg_views(r@) =~= base + seq![tv, vv]);
                            }
                        },
                        None => {
                            proof {
                                assert(arg_views(r@) =~= base + spec_field_tokens(*f));
                            }
                        },
                    }
                },
            }
        },
    }
}

/// Serializes a field list into the full token vector, in order.
pub fn args_from_fields(fields: &Vec<ArgField>) -> (r: Vec<String>)
    ensures
        arg_views(r@) == spec_args_tokens(fields@),
{
    let mut r: Vec<String> = Vec::new();
    let n = fields.len();
    let mut i: usize = 0;
    proof {
        assert(arg_views(r@) =~= spec_args_tokens(fields@.subrange(0, 0)));
    }
    while i < n
        invariant
            n == fields@.len(),
            i <= n,
            arg_views(r@) == spec_args_tokens(fields@.subrange(0, i as int)),
        decreases n - i,
    {
        push_field_tokens(&mut r, &fields[i]);
        proof {
            assert(fields@.subrange(0, (i + 1) as int).drop_last() =~= fields@.subrange(
                0,
                i as int,
            ));
            assert(fields@.subrange(0, (i + 1) as int).last() == fields@[i as int]);
        }
        i = i + 1;
    }
    proof {
        assert(fields@.subrange(0, n as int) =~= fields@);
    }
    r
}

} // verus!

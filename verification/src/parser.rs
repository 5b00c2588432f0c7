//! The line-level state machine: an explicit parser-state value threaded
//! through each input line, already tokenized by the caller.  A `CREATE`
//! line opens a table block, a line whose first token is `);` closes it and
//! yields the block's schema model, and any other line inside an open block
//! contributes one raw column pair.  Lines outside an open block are
//! ignored.  Blank and comment lines are the tokenizer's concern and never
//! reach this state machine.

use crate::casing::type_name_of;
use crate::mapper::{mapped_pair, Pair, PairV};
use crate::schema::{map_pairs, views_of_pairs, GoStruct, GoStructV};
use crate::text::str_eq;
use vstd::prelude::*;

verus! {

/// A fatal input-contract violation: the stream must be abandoned.
#[derive(Clone, Copy, PartialEq, Eq, Debug)]
pub enum ParseError {
    /// A `CREATE` line with fewer than two tokens, so no second-to-last
    /// token exists to name the table.
    MalformedCreateLine,
    /// A column line inside an open block with fewer than two tokens.
    MalformedColumnLine,
}

/// The in-flight accumulation state while parsing: whether a block is open,
/// the raw and generated names taken from its `CREATE` line, and the raw
/// column pairs seen so far.
pub struct ParserState {
    pub started: bool,
    pub sql_type_name: String,
    pub go_type_name: String,
    pub pairs: Vec<Pair>,
}

/// The mathematical value of a [`ParserState`].
#[verifier::ext_equal]
pub ghost struct ParserStateV {
    pub started: bool,
    pub sql_type_name: Seq<char>,
    pub go_type_name: Seq<char>,
    pub pairs: Seq<PairV>,
}

impl View for ParserState {
    type V = ParserStateV;

    open spec fn view(&self) -> ParserStateV {
        ParserStateV {
            started: self.started,
            sql_type_name: self.sql_type_name@,
            go_type_name: self.go_type_name@,
            pairs: views_of_pairs(self.pairs@),
        }
    }
}

/// The views of a sequence of strings.
pub open spec fn views_of_strings(ws: Seq<String>) -> Seq<Seq<char>> {
    ws.map_values(|s: String| s@)
}

/// The state before any input line: no block open, nothing accumulated.
pub open spec fn initial_state() -> ParserStateV {
    ParserStateV {
        started: false,
        sql_type_name: Seq::<char>::empty(),
        go_type_name: Seq::<char>::empty(),
        pairs: Seq::<PairV>::empty(),
    }
}

/// A raw column pair as first accumulated: the two tokens verbatim, the
/// mapped fields still empty.
pub open spec fn raw_pair(key: Seq<char>, value: Seq<char>) -> PairV {
    PairV { key, value, gokey: Seq::<char>::empty(), govalue: Seq::<char>::empty() }
}

/// What one tokenized line does to the parser state: the next state and,
/// when the line closes a block, that block's schema model; or the fatal
/// error for a malformed line.
pub open spec fn step_spec(st: ParserStateV, w: Seq<Seq<char>>) -> Result<
    (ParserStateV, Option<GoStructV>),
    ParseError,
> {
    if w.len() == 0 {
        Ok((st, None))
    } else if w[0] == "CREATE"@ {
        if w.len() < 2 {
            Err(ParseError::MalformedCreateLine)
        } else {
            let table = w[w.len() - 2];
            Ok(
                (
                    ParserStateV {
                        started: true,
                        sql_type_name: table,
                        go_type_name: type_name_of(table),
                        pairs: st.pairs,
                    },
                    None,
                ),
            )
        }
    } else if w[0] == ");"@ {
        if st.started {
            Ok(
                (
                    initial_state(),
                    Some(
                        GoStructV {
                            sql_type_name: st.sql_type_name,
                            go_type_name: st.go_type_name,
                            members: st.pairs.map_values(|p: PairV| mapped_pair(p)),
                        },
                    ),
                ),
            )
        } else {
            Ok((st, None))
        }
    } else if st.started {
        if w.len() < 2 {
            Err(ParseError::MalformedColumnLine)
        } else {
            Ok(
                (
                    ParserStateV {
                        started: st.started,
                        sql_type_name: st.sql_type_name,
                        go_type_name: st.go_type_name,
                        pairs: st.pairs.push(raw_pair(w[0], w[1])),
                    },
                    None,
                ),
            )
        }
    } else {
        Ok((st, None))
    }
}

impl ParserState {
    /// The state before any input line.
    pub fn new() -> (s: ParserState)
        ensures
            s@ == initial_state(),
    {
        let s = ParserState {
            started: false,
            sql_type_name: String::new(),
            go_type_name: String::new(),
            pairs: Vec::new(),
        };
        proof {
            assert(s@ =~= initial_state());
        }
        s
    }

    /// Consumes one tokenized input line, as [`step_spec`] says: returns the
    /// next state and, on a block close, the finished schema model, or the
    /// fatal error for a malformed line.
    pub fn step(self, words: Vec<String>) -> (r: Result<
        (ParserState, Option<GoStruct>),
        ParseError,
    >)
        ensures
            ({
                let res = step_spec(self@, views_of_strings(words@));
                match r {
                    Ok((s2, out)) => {
                        &&& res is Ok
                        &&& s2@ == res->Ok_0.0
                        &&& match out {
                            Some(g) => res->Ok_0.1 matches Some(gv) && g@ == gv,
                            None => res->Ok_0.1 is None,
                        }
                    },
                    Err(e) => res matches Err(e2) && e == e2,
                }
            }),
    {
        let ghost st0 = self@;
        let ghost w = views_of_strings(words@);
        if words.len() == 0 {
            return Ok((self, None));
        }
        proof {
            assert(w[0] == words@[0]@);
        }
        if str_eq(words[0].as_str(), "CREATE") {
            if words.len() < 2 {
                return Err(ParseError::MalformedCreateLine);
            }
            proof {
                assert(w[w.len() - 2] == words@[words@.len() - 2]@);
            }
            let table = words[words.len() - 2].clone();
            let go_name = crate::casing::to_type_name(table.as_str());
            let st = ParserState {
                started: true,
                sql_type_name: table,
                go_type_name: go_name,
                pairs: self.pairs,
            };
            return Ok((st, None));
        }
        if str_eq(words[0].as_str(), ");") {
            if self.started {
                let members = map_pairs(self.pairs);
                let g = GoStruct {
                    sql_type_name: self.sql_type_name,
                    go_type_name: self.go_type_name,
                    members,
                };
                return Ok((ParserState::new(), Some(g)));
            }
            return Ok((self, None));
        }
        if self.started {
            if words.len() < 2 {
                return Err(ParseError::MalformedColumnLine);
            }
            proof {
                assert(w[1] == words@[1]@);
            }
            let key = words[0].clone();
            let value = words[1].clone();
            let mut st = self;
            st.pairs.push(Pair { key, value, gokey: String::new(), govalue: String::new() });
            proof {
                assert(st@.pairs =~= st0.pairs.push(raw_pair(w[0], w[1])));
            }
            return Ok((st, None));
        }
        Ok((self, None))
    }
}

} // verus!

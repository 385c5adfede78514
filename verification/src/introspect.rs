//! Compile-command introspection: given the records of a compilation
//! database, find the invocation that compiled a known reference source
//! file and recover every include directory from its command line, in
//! command-line order.

use crate::strutil;
use crate::tokenize;
use crate::tokenize::SepMode;
use vstd::prelude::*;

verus! {

/// One record of a compilation database: the file that was compiled and
/// the full compiler command that compiled it.
pub struct CompileRecord {
    pub file: String,
    pub command: String,
}

/// The command of the first record whose file ends with `reference`.
pub open spec fn spec_find_command(
    records: Seq<CompileRecord>,
    reference: Seq<char>,
) -> Option<Seq<char>>
    decreases records.len(),
{
    if records.len() == 0 {
        None
    } else if strutil::spec_ends_with(records[0].file@, reference) {
        Some(records[0].command@)
    } else {
        spec_find_command(records.skip(1), reference)
    }
}

/// Include directories named by a token sequence: the remainder of every
/// token that begins with `-I`, and the token after every token that is
/// exactly `-isystem`.
pub open spec fn spec_includes_of_tokens(tokens: Seq<Seq<char>>) -> Seq<Seq<char>>
    decreases tokens.len(),
{
    if tokens.len() == 0 {
        Seq::empty()
    } else {
        let head: Seq<Seq<char>> = if strutil::spec_starts_with(tokens[0], "-I"@) {
            seq![tokens[0].skip("-I"@.len() as int)]
        } else if tokens[0] == "-isystem"@ && tokens.len() > 1 {
            seq![tokens[1]]
        } else {
            Seq::empty()
        };
        head + spec_includes_of_tokens(tokens.skip(1))
    }
}

/// Include directories of one compiler command line, in order.
pub open spec fn spec_includes_of_command(command: Seq<char>) -> Seq<Seq<char>> {
    spec_includes_of_tokens(tokenize::spec_tokens(command, SepMode::Whitespace))
}

/// Include directories named by the tokens of a command string.
pub fn includes_of_command(command: &str) -> (r: Vec<String>)
    ensures
        r.deep_view() == spec_includes_of_command(command@),
{
    let tokens = tokenize::split_tokens(command, SepMode::Whitespace);
    let ghost tdv = tokens.deep_view();
    let n = tokens.len();
    let mut r: Vec<String> = Vec::new();
    let mut i: usize = 0;
    proof {
        assert(tdv.skip(0) =~= tdv);
        assert(r.deep_view() + spec_includes_of_tokens(tdv) =~~= spec_includes_of_tokens(tdv));
    }
    while i < n
        invariant
            i <= n,
            n == tokens@.len(),
            tdv == tokens.deep_view(),
            spec_includes_of_tokens(tdv) == r.deep_view() + spec_includes_of_tokens(
                tdv.skip(i as int),
            ),
        decreases n - i,
    {
        let ghost rest = tdv.skip(i as int);
        let ghost old_dv = r.deep_view();
        proof {
            assert(rest[0] == tdv[i as int]);
            assert(rest.skip(1) =~= tdv.skip(i as int + 1));
            if i + 1 < n {
                assert(rest[1] == tdv[i as int + 1]);
            }
        }
        let tok = &tokens[i];
        match strutil::strip_prefix(tok.as_str(), "-I") {
            Some(rest_of_tok) => {
                r.push(rest_of_tok);
                proof {
                    assert(r.deep_view() =~~= old_dv.push(tdv[i as int].skip("-I"@.len() as int)));
                    assert(r.deep_view() + spec_includes_of_tokens(tdv.skip(i as int + 1)) =~~=
                    old_dv + spec_includes_of_tokens(rest));
                }
            },
            None => {
                if strutil::str_eq(tok.as_str(), "-isystem") && i + 1 < n {
                    r.push(tokens[i + 1].clone());
                    proof {
                        assert(r.deep_view() =~~= old_dv.push(tdv[i as int + 1]));
                        assert(r.deep_view() + spec_includes_of_tokens(tdv.skip(i as int + 1))
                            =~~= old_dv + spec_includes_of_tokens(rest));
                    }
                } else {
                    proof {
                        assert(r.deep_view() + spec_includes_of_tokens(tdv.skip(i as int + 1))
                            =~~= old_dv + spec_includes_of_tokens(rest));
                    }
                }
            },
        }
        i = i + 1;
    }
    proof {
        assert(tdv.skip(n as int) =~= Seq::<Seq<char>>::empty());
        assert(r.deep_view() + spec_includes_of_tokens(tdv.skip(n as int)) =~~= r.deep_view());
    }
    r
}

/// Locate the record that compiled the reference source and extract the
/// include directories of its command line.
///
/// Returns `None` exactly when no record's file ends with `reference`;
/// the caller must treat that as a hard failure, since the dependent
/// bridge compilation cannot be configured without these paths.  No
/// partial result is ever returned.
pub fn extract_includes(records: &Vec<CompileRecord>, reference: &str) -> (r: Option<Vec<String>>)
    ensures
        r is Some <==> spec_find_command(records@, reference@) is Some,
        r matches Some(v) ==> spec_find_command(records@, reference@) matches Some(cmd)
            && v.deep_view() == spec_includes_of_tokens(
            tokenize::spec_tokens(cmd, SepMode::Whitespace),
        ),
{
    let n = records.len();
    let mut i: usize = 0;
    proof {
        assert(records@.skip(0) =~= records@);
    }
    while i < n
        invariant
            i <= n,
            n == records@.len(),
            spec_find_command(records@, reference@) == spec_find_command(
                records@.skip(i as int),
                reference@,
            ),
        decreases n - i,
    {
        proof {
            assert(records@.skip(i as int)[0] == records@[i as int]);
            assert(records@.skip(i as int).skip(1) =~= records@.skip(i as int + 1));
        }
        let record = &records[i];
        if strutil::ends_with(record.file.as_str(), reference) {
            let includes = includes_of_command(record.command.as_str());
            return Some(includes);
        }
        i = i + 1;
    }
    None
}

} // verus!

//! Command routing. A message selects a command by a case-insensitive prefix
//! test on its trimmed text; the remainder of the untrimmed message text after
//! the bare keyword is the command's argument, parsed by the per-command
//! grammar.

use vstd::prelude::*;
use crate::bytes::{lower, trimmed, starts_with, after_first, find_sub, lemma_find_sub_from_props,
    find_byte_from, lemma_find_byte_from_props, trim_set, toks_from, ascii_lower, trim, has_prefix,
    tail_after, find_sub_at, sub_vec, trim_set_vec, eq_bytes, find_byte_at, contains_sub};
use crate::graph::{GraphSpec, graph_ok, parse_graph};
use crate::text::{kw_eval, kw_comp, kw_graph, kw_help, bare_eval, bare_comp, bare_graph,
    fence_rust, ticks, tick_set, parens, tok_stable, tok_beta, tok_nightly, tok_debug,
    tok_2015, tok_2018, kw_eval_vec, kw_comp_vec, kw_graph_vec, kw_help_vec,
    bare_eval_vec, bare_comp_vec, bare_graph_vec, fence_rust_vec, ticks_vec, tick_set_vec,
    parens_vec, tok_stable_vec, tok_beta_vec, tok_nightly_vec, tok_debug_vec, tok_2015_vec,
    tok_2018_vec};

verus! {

/// The sandbox channel a compile runs on.
#[derive(Clone, Copy, PartialEq, Eq, Structural, Debug)]
pub enum Channel {
    Stable,
    Beta,
    Nightly,
}

/// The build profile a compile runs with.
#[derive(Clone, Copy, PartialEq, Eq, Structural, Debug)]
pub enum Mode {
    Debug,
    Release,
}

/// The language edition a compile uses.
#[derive(Clone, Copy, PartialEq, Eq, Structural, Debug)]
pub enum Edition {
    E2015,
    E2018,
    E2021,
}

/// What is sent to the sandbox service: the three header choices and the
/// source inside the fence.
pub struct CompileRequest {
    pub channel: Channel,
    pub mode: Mode,
    pub edition: Edition,
    pub code: Vec<u8>,
}

/// The command a message denotes.
pub enum Command {
    Eval { color: Vec<u8>, expression: Vec<u8> },
    Compile { request: CompileRequest },
    MissingCodeBlock,
    Graph { graph: GraphSpec },
    Help,
    NoCommand,
}

/// Which handler a message selects.
#[derive(Clone, Copy, PartialEq, Eq, Structural, Debug)]
pub enum Selected {
    SelEval,
    SelCompile,
    SelGraph,
    SelHelp,
    SelNone,
}

/// The handler selected by a message: a case-insensitive prefix test against
/// the four command tokens, on the trimmed text.
pub open spec fn selection(s: Seq<u8>) -> Selected {
    let t = lower(trimmed(s));
    if starts_with(t, kw_eval()) {
        Selected::SelEval
    } else if starts_with(t, kw_comp()) {
        Selected::SelCompile
    } else if starts_with(t, kw_graph()) {
        Selected::SelGraph
    } else if starts_with(t, kw_help()) {
        Selected::SelHelp
    } else {
        Selected::SelNone
    }
}

/// The colour token and the equation of an eval argument: a token between
/// parens when the trimmed argument starts with one, and the rest as the
/// equation.
pub open spec fn eval_parts(arg: Seq<u8>) -> (Seq<u8>, Seq<u8>) {
    let a = trimmed(arg);
    if a.len() > 0 && a[0] == 40 {
        match find_byte_from(a, 1, 41) {
            Some(j) => (a.subrange(1, j), a.subrange(j + 1, a.len() as int)),
            None => (Seq::empty(), a),
        }
    } else {
        (Seq::empty(), a)
    }
}

/// Whether `c` is the eval command of the argument `arg`.
pub open spec fn eval_ok(arg: Seq<u8>, c: Command) -> bool {
    c matches Command::Eval { color, expression } && color@ == eval_parts(arg).0 && expression@
        == eval_parts(arg).1
}

/// The channel a header token names; an unknown token falls back to stable.
pub open spec fn channel_of(t: Seq<u8>) -> Channel {
    if t == tok_stable() {
        Channel::Stable
    } else if t == tok_beta() {
        Channel::Beta
    } else if t == tok_nightly() {
        Channel::Nightly
    } else {
        Channel::Stable
    }
}

/// The mode a header token names; an unknown token falls back to release.
pub open spec fn mode_of(t: Seq<u8>) -> Mode {
    if t == tok_debug() {
        Mode::Debug
    } else {
        Mode::Release
    }
}

/// The edition a header token names; an unknown token falls back to 2021.
pub open spec fn edition_of(t: Seq<u8>) -> Edition {
    if t == tok_2015() {
        Edition::E2015
    } else if t == tok_2018() {
        Edition::E2018
    } else {
        Edition::E2021
    }
}

/// The header choices taken from the text before the fence: with exactly
/// three comma-separated tokens each position overrides its default
/// independently; otherwise the defaults stable, release and 2021 hold.
pub open spec fn header_fields(left: Seq<u8>) -> (Channel, Mode, Edition) {
    let l = trim_set(trimmed(left), parens());
    let toks = toks_from(l, 0);
    if toks.len() == 3 {
        (
            channel_of(lower(trimmed(toks[0]))),
            mode_of(lower(trimmed(toks[1]))),
            edition_of(trimmed(toks[2])),
        )
    } else {
        (Channel::Stable, Mode::Release, Edition::E2021)
    }
}

/// The source inside the fence: trimmed, and stripped of surrounding
/// backticks when a closing fence is present.
pub open spec fn code_of(right: Seq<u8>) -> Seq<u8> {
    let t = trimmed(right);
    if find_sub(t, ticks()) is Some {
        trim_set(t, tick_set())
    } else {
        t
    }
}

/// The parsed compile argument, or nothing when no rust fence occurs.
pub open spec fn compile_parts(arg: Seq<u8>) -> Option<(Channel, Mode, Edition, Seq<u8>)> {
    match find_sub(arg, fence_rust()) {
        None => None,
        Some(i) => {
            let left = arg.subrange(0, i);
            let right = arg.subrange(i + fence_rust().len(), arg.len() as int);
            let h = header_fields(left);
            Some((h.0, h.1, h.2, code_of(right)))
        },
    }
}

/// Whether `c` is the compile command of the argument `arg`.
pub open spec fn compile_ok(arg: Seq<u8>, c: Command) -> bool {
    match compile_parts(arg) {
        None => c is MissingCodeBlock,
        Some(q) => c matches Command::Compile { request } && request.channel == q.0
            && request.mode == q.1 && request.edition == q.2 && request.code@ == q.3,
    }
}

/// Whether `c` is the command the message `s` denotes.
pub open spec fn route_ok(s: Seq<u8>, c: Command) -> bool {
    match selection(s) {
        Selected::SelEval => eval_ok(after_first(s, bare_eval()), c),
        Selected::SelCompile => compile_ok(after_first(s, bare_comp()), c),
        Selected::SelGraph => c matches Command::Graph { graph } && graph_ok(
            after_first(s, bare_graph()),
            graph,
        ),
        Selected::SelHelp => c is Help,
        Selected::SelNone => c is NoCommand,
    }
}

/// Which handler runs depends only on the trimmed text lowered: any two
/// messages that agree up to ASCII casing and surrounding whitespace select
/// the same handler.
pub proof fn lemma_selection_case_insensitive(s1: Seq<u8>, s2: Seq<u8>)
    requires
        lower(trimmed(s1)) == lower(trimmed(s2)),
    ensures
        selection(s1) == selection(s2),
{
}

fn parse_eval(arg: &Vec<u8>) -> (r: (Vec<u8>, Vec<u8>))
    ensures
        r.0@ == eval_parts(arg@).0,
        r.1@ == eval_parts(arg@).1,
{
    let a = trim(arg);
    if a.len() > 0 && a[0] == 40 {
        let n = a.len();
        match find_byte_at(&a, 1, 41) {
            Some(j) => {
                proof {
                    lemma_find_byte_from_props(a@, 1, 41);
                    assert(j < n);
                }
                let color = sub_vec(&a, 1, j);
                let expression = sub_vec(&a, j + 1, n);
                (color, expression)
            },
            None => (Vec::new(), a),
        }
    } else {
        (Vec::new(), a)
    }
}

fn parse_header(left: &Vec<u8>) -> (r: (Channel, Mode, Edition))
    ensures
        r == header_fields(left@),
{
    let l = trim_set_vec(&trim(left), &parens_vec());
    let n = l.len();
    let ghost toks = toks_from(l@, 0);
    let defaults = (Channel::Stable, Mode::Release, Edition::E2021);
    match find_byte_at(&l, 0, 44) {
        None => {
            proof {
                assert(toks.len() == 1);
            }
            defaults
        },
        Some(c1) => {
            proof {
                lemma_find_byte_from_props(l@, 0, 44);
                assert(c1 < n);
            }
            match find_byte_at(&l, c1 + 1, 44) {
                None => {
                    proof {
                        assert(toks_from(l@, c1 + 1) == seq![l@.subrange(c1 + 1, n as int)]);
                        assert(toks.len() == 2);
                    }
                    defaults
                },
                Some(c2) => {
                    proof {
                        lemma_find_byte_from_props(l@, c1 + 1, 44);
                        assert(c2 < n);
                    }
                    match find_byte_at(&l, c2 + 1, 44) {
                        Some(c3) => {
                            proof {
                                lemma_find_byte_from_props(l@, c2 + 1, 44);
                                assert(c3 < n);
                                assert(toks_from(l@, c2 + 1) == seq![
                                    l@.subrange(c2 + 1, c3 as int),
                                ] + toks_from(l@, c3 + 1));
                                assert(toks_from(l@, c3 + 1).len() >= 1);
                                assert(toks_from(l@, c1 + 1).len() >= 3);
                                assert(toks.len() >= 4);
                            }
                            defaults
                        },
                        None => {
                            proof {
                                assert(toks_from(l@, c2 + 1) == seq![
                                    l@.subrange(c2 + 1, n as int),
                                ]);
                                assert(toks_from(l@, c1 + 1) == seq![
                                    l@.subrange(c1 + 1, c2 as int),
                                ] + toks_from(l@, c2 + 1));
                                assert(toks.len() == 3);
                                assert(toks[0] == l@.subrange(0, c1 as int));
                                assert(toks[1] == l@.subrange(c1 + 1, c2 as int));
                                assert(toks[2] == l@.subrange(c2 + 1, n as int));
                            }
                            let t0 = ascii_lower(&trim(&sub_vec(&l, 0, c1)));
                            let t1 = ascii_lower(&trim(&sub_vec(&l, c1 + 1, c2)));
                            let t2 = trim(&sub_vec(&l, c2 + 1, n));
                            let channel = if eq_bytes(&t0, &tok_stable_vec()) {
                                Channel::Stable
                            } else if eq_bytes(&t0, &tok_beta_vec()) {
                                Channel::Beta
                            } else if eq_bytes(&t0, &tok_nightly_vec()) {
                                Channel::Nightly
                            } else {
                                Channel::Stable
                            };
                            let mode = if eq_bytes(&t1, &tok_debug_vec()) {
                                Mode::Debug
                            } else {
                                Mode::Release
                            };
                            let edition = if eq_bytes(&t2, &tok_2015_vec()) {
                                Edition::E2015
                            } else if eq_bytes(&t2, &tok_2018_vec()) {
                                Edition::E2018
                            } else {
                                Edition::E2021
                            };
                            (channel, mode, edition)
                        },
                    }
                },
            }
        },
    }
}

fn parse_code(right: &Vec<u8>) -> (r: Vec<u8>)
    ensures
        r@ == code_of(right@),
{
    let t = trim(right);
    if contains_sub(&t, &ticks_vec()) {
        trim_set_vec(&t, &tick_set_vec())
    } else {
        t
    }
}

/// Parses a compile argument: the request when a rust fence is present, the
/// missing-code-block outcome when not.
pub fn compile(code: &Vec<u8>) -> (c: Command)
    ensures
        compile_ok(code@, c),
{
    let fence = fence_rust_vec();
    match find_sub_at(code, &fence, 0) {
        None => Command::MissingCodeBlock,
        Some(i) => {
            let n = code.len();
            proof {
                lemma_find_sub_from_props(code@, fence@, 0);
                assert(i + fence@.len() <= n);
            }
            let left = sub_vec(code, 0, i);
            let right = sub_vec(code, i + fence.len(), n);
            let h = parse_header(&left);
            let src = parse_code(&right);
            Command::Compile {
                request: CompileRequest { channel: h.0, mode: h.1, edition: h.2, code: src },
            }
        },
    }
}

/// Routes a message to the command it denotes.
pub fn route(content: &Vec<u8>) -> (c: Command)
    ensures
        route_ok(content@, c),
{
    let t = ascii_lower(&trim(content));
    if has_prefix(&t, &kw_eval_vec()) {
        let arg = tail_after(content, &bare_eval_vec());
        let parts = parse_eval(&arg);
        Command::Eval { color: parts.0, expression: parts.1 }
    } else if has_prefix(&t, &kw_comp_vec()) {
        let arg = tail_after(content, &bare_comp_vec());
        compile(&arg)
    } else if has_prefix(&t, &kw_graph_vec()) {
        let arg = tail_after(content, &bare_graph_vec());
        Command::Graph { graph: parse_graph(&arg) }
    } else if has_prefix(&t, &kw_help_vec()) {
        Command::Help
    } else {
        Command::NoCommand
    }
}

} // verus!

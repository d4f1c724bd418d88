//! The graph command's argument grammar: a parenthesized title followed by
//! paren-bracketed coordinate pairs, and the axis bounds the scatter plot is
//! drawn with.

use vstd::prelude::*;
use crate::bytes::{find_byte_from, lemma_find_byte_from_props, trimmed, find_byte_at, sub_vec,
    trim};
use crate::numbers::{parsed_i32, parse_i32};

verus! {

/// A parsed graph command: the chart title, the plotted points, and the
/// exclusive axis ends the chart is drawn with.
pub struct GraphSpec {
    pub title: Vec<u8>,
    pub points: Vec<(i32, i32)>,
    pub x_end: i32,
    pub y_end: i32,
}

/// The pair a single group denotes: the token before the first comma and the
/// token after it, each trimmed and read as a decimal; a missing second
/// coordinate defaults to 0.
pub open spec fn point_of(inner: Seq<u8>) -> (i32, i32) {
    match find_byte_from(inner, 0, 44) {
        None => (parsed_i32(trimmed(inner)), 0),
        Some(k) => (
            parsed_i32(trimmed(inner.subrange(0, k))),
            parsed_i32(trimmed(inner.subrange(k + 1, inner.len() as int))),
        ),
    }
}

/// The points denoted by the `(..)` groups of `s` from `pos` on, in order.
pub open spec fn points_from(s: Seq<u8>, pos: int) -> Seq<(i32, i32)>
    decreases s.len() + 1 - pos,
{
    if pos < 0 || pos > s.len() {
        Seq::empty()
    } else {
        match find_byte_from(s, pos, 40) {
            None => Seq::empty(),
            Some(o) => {
                proof {
                    lemma_find_byte_from_props(s, pos, 40);
                }
                match find_byte_from(s, o + 1, 41) {
                    None => Seq::empty(),
                    Some(c) => {
                        proof {
                            lemma_find_byte_from_props(s, o + 1, 41);
                        }
                        seq![point_of(s.subrange(o + 1, c))] + points_from(s, c + 1)
                    },
                }
            },
        }
    }
}

/// The title: the text between the first `(` and the first `)` after it.
pub open spec fn title_of(arg: Seq<u8>) -> Seq<u8> {
    match find_byte_from(arg, 0, 40) {
        None => Seq::empty(),
        Some(o) => match find_byte_from(arg, o + 1, 41) {
            None => Seq::empty(),
            Some(c) => arg.subrange(o + 1, c),
        },
    }
}

/// Where the point groups start: right after the title pair, or at the start
/// when there is no such pair.
pub open spec fn points_origin(arg: Seq<u8>) -> int {
    match find_byte_from(arg, 0, 40) {
        None => 0,
        Some(o) => match find_byte_from(arg, o + 1, 41) {
            None => 0,
            Some(c) => c + 1,
        },
    }
}

/// The points of a graph argument.
pub open spec fn points_of(arg: Seq<u8>) -> Seq<(i32, i32)> {
    points_from(arg, points_origin(arg))
}

/// The largest plotted x coordinate, never below 0.
pub open spec fn max_x(points: Seq<(i32, i32)>) -> int
    decreases points.len(),
{
    if points.len() == 0 {
        0
    } else {
        let m = max_x(points.drop_last());
        if points.last().0 > m {
            points.last().0 as int
        } else {
            m
        }
    }
}

/// The largest plotted y coordinate, never below 0.
pub open spec fn max_y(points: Seq<(i32, i32)>) -> int
    decreases points.len(),
{
    if points.len() == 0 {
        0
    } else {
        let m = max_y(points.drop_last());
        if points.last().1 > m {
            points.last().1 as int
        } else {
            m
        }
    }
}

/// The exclusive axis end for a largest coordinate `m`: two beyond it, capped
/// at the machine bound.
pub open spec fn axis_end(m: int) -> i32 {
    if m + 2 > i32::MAX {
        i32::MAX
    } else {
        (m + 2) as i32
    }
}

/// Well-formedness of a parsed graph: the axis ends are those of its points.
pub open spec fn graph_wf(g: GraphSpec) -> bool {
    g.x_end == axis_end(max_x(g.points@)) && g.y_end == axis_end(max_y(g.points@))
}

/// Whether `g` is exactly the graph denoted by `arg`.
pub open spec fn graph_ok(arg: Seq<u8>, g: GraphSpec) -> bool {
    g.title@ == title_of(arg) && g.points@ == points_of(arg) && graph_wf(g)
}

fn parse_point(inner: &Vec<u8>) -> (r: (i32, i32))
    ensures
        r == point_of(inner@),
{
    match find_byte_at(inner, 0, 44) {
        None => (parse_i32(&trim(inner)), 0),
        Some(k) => {
            let n = inner.len();
            proof {
                lemma_find_byte_from_props(inner@, 0, 44);
                assert(k < n);
            }
            let x = parse_i32(&trim(&sub_vec(inner, 0, k)));
            let y = parse_i32(&trim(&sub_vec(inner, k + 1, n)));
            (x, y)
        },
    }
}

/// Parses a graph argument: title pair, point groups, and axis bounds.
pub fn parse_graph(arg: &Vec<u8>) -> (g: GraphSpec)
    ensures
        graph_ok(arg@, g),
{
    let n = arg.len();
    let mut title: Vec<u8> = Vec::new();
    let mut start: usize = 0;
    match find_byte_at(arg, 0, 40) {
        None => {},
        Some(o) => {
            proof {
                lemma_find_byte_from_props(arg@, 0, 40);
                assert(o < n);
            }
            match find_byte_at(arg, o + 1, 41) {
                None => {},
                Some(c) => {
                    proof {
                        lemma_find_byte_from_props(arg@, o + 1, 41);
                        assert(c < n);
                    }
                    title = sub_vec(arg, o + 1, c);
                    start = c + 1;
                },
            }
        },
    }
    proof {
        assert(start as int == points_origin(arg@));
        assert(title@ == title_of(arg@));
    }
    let mut pts: Vec<(i32, i32)> = Vec::new();
    let mut pos: usize = start;
    proof {
        assert(pts@ + points_from(arg@, pos as int) =~= points_from(arg@, start as int));
    }
    loop
        invariant
            start <= pos,
            pos <= n + 1,
            n == arg@.len(),
            points_of(arg@) == points_from(arg@, start as int),
            points_from(arg@, start as int) == pts@ + points_from(arg@, pos as int),
        ensures
            points_from(arg@, start as int) == pts@,
        decreases arg@.len() + 1 - pos,
    {
        match find_byte_at(arg, pos, 40) {
            None => {
                proof {
                    assert(points_from(arg@, pos as int) =~= Seq::<(i32, i32)>::empty());
                    assert(pts@ + Seq::<(i32, i32)>::empty() =~= pts@);
                }
                break ;
            },
            Some(o) => {
                proof {
                    lemma_find_byte_from_props(arg@, pos as int, 40);
                    assert(o < n);
                }
                match find_byte_at(arg, o + 1, 41) {
                    None => {
                        proof {
                            assert(points_from(arg@, pos as int) =~= Seq::<(i32, i32)>::empty());
                            assert(pts@ + Seq::<(i32, i32)>::empty() =~= pts@);
                        }
                        break ;
                    },
                    Some(c) => {
                        proof {
                            lemma_find_byte_from_props(arg@, o + 1, 41);
                            assert(c < n);
                        }
                        let inner = sub_vec(arg, o + 1, c);
                        let p = parse_point(&inner);
                        let ghost pts_old = pts@;
                        pts.push(p);
                        proof {
                            assert(points_from(arg@, pos as int) == seq![
                                point_of(arg@.subrange(o + 1, c as int)),
                            ] + points_from(arg@, c + 1));
                            assert(pts_old + (seq![p] + points_from(arg@, c + 1)) =~= pts@
                                + points_from(arg@, c + 1));
                        }
                        pos = c + 1;
                    },
                }
            },
        }
    }
    let mut mx: i32 = 0;
    let mut my: i32 = 0;
    let mut i: usize = 0;
    proof {
        assert(pts@.subrange(0, 0) =~= Seq::<(i32, i32)>::empty());
    }
    while i < pts.len()
        invariant
            i <= pts@.len(),
            mx as int == max_x(pts@.subrange(0, i as int)),
            my as int == max_y(pts@.subrange(0, i as int)),
            mx >= 0,
            my >= 0,
        decreases pts@.len() - i,
    {
        let (x, y) = pts[i];
        proof {
            assert(pts@.subrange(0, i + 1).drop_last() =~= pts@.subrange(0, i as int));
            assert(pts@.subrange(0, i + 1).last() == pts@[i as int]);
        }
        if x > mx {
            mx = x;
        }
        if y > my {
            my = y;
        }
        i += 1;
    }
    proof {
        assert(pts@.subrange(0, pts@.len() as int) =~= pts@);
    }
    let x_end: i32 = if mx > i32::MAX - 2 {
        i32::MAX
    } else {
        mx + 2
    };
    let y_end: i32 = if my > i32::MAX - 2 {
        i32::MAX
    } else {
        my + 2
    };
    GraphSpec { title, points: pts, x_end, y_end }
}

} // verus!

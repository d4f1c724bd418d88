use birdy_bot::command::{route, Command, Channel, Mode, Edition};

fn to_vec(s: &[u8]) -> Vec<u8> {
    s.to_vec()
}

#[test]
fn eval_upper_casing_selects_eval() {
    let c = route(&to_vec(b"!EVAL x"));
    assert!(matches!(c, Command::Eval { .. }));
}

#[test]
fn eval_mixed_casing_selects_eval() {
    let c = route(&to_vec(b"!Eval x"));
    assert!(matches!(c, Command::Eval { .. }));
}

#[test]
fn eval_lower_casing_selects_eval() {
    let c = route(&to_vec(b"!eval x"));
    assert!(matches!(c, Command::Eval { .. }));
}

#[test]
fn leading_whitespace_is_trimmed_before_matching() {
    let c = route(&to_vec(b"   !help"));
    assert!(matches!(c, Command::Help));
}

#[test]
fn unmatched_content_routes_nowhere() {
    let c = route(&to_vec(b"hello there"));
    assert!(matches!(c, Command::NoCommand));
    let c = route(&to_vec(b"eval without the bang"));
    assert!(matches!(c, Command::NoCommand));
}

#[test]
fn eval_argument_is_taken_after_the_bare_keyword() {
    match route(&to_vec(b"!eval (blue) x^2+y^2=1")) {
        Command::Eval { color, expression } => {
            assert_eq!(color.as_slice(), b"blue");
            assert_eq!(expression.as_slice(), b" x^2+y^2=1");
        }
        _ => panic!("expected the eval command"),
    }
}

#[test]
fn eval_without_color_token_has_empty_color() {
    match route(&to_vec(b"!eval x^2")) {
        Command::Eval { color, expression } => {
            assert_eq!(color.as_slice(), b"");
            assert_eq!(expression.as_slice(), b"x^2");
        }
        _ => panic!("expected the eval command"),
    }
}

#[test]
fn compile_defaults_without_header() {
    match route(&to_vec(b"!comp ```rust fn main(){}```")) {
        Command::Compile { request } => {
            assert_eq!(request.channel, Channel::Stable);
            assert_eq!(request.mode, Mode::Release);
            assert_eq!(request.edition, Edition::E2021);
            assert_eq!(request.code.as_slice(), b"fn main(){}");
        }
        _ => panic!("expected the compile command"),
    }
}

#[test]
fn compile_full_override_header() {
    match route(&to_vec(b"!comp (nightly, debug, 2018) ```rust fn main(){}```")) {
        Command::Compile { request } => {
            assert_eq!(request.channel, Channel::Nightly);
            assert_eq!(request.mode, Mode::Debug);
            assert_eq!(request.edition, Edition::E2018);
        }
        _ => panic!("expected the compile command"),
    }
}

#[test]
fn compile_bogus_channel_falls_back_alone() {
    match route(&to_vec(b"!comp (bogus, debug, 2018) ```rust fn main(){}```")) {
        Command::Compile { request } => {
            assert_eq!(request.channel, Channel::Stable);
            assert_eq!(request.mode, Mode::Debug);
            assert_eq!(request.edition, Edition::E2018);
        }
        _ => panic!("expected the compile command"),
    }
}

#[test]
fn compile_two_token_header_means_defaults() {
    match route(&to_vec(b"!comp (nightly, debug) ```rust fn main(){}```")) {
        Command::Compile { request } => {
            assert_eq!(request.channel, Channel::Stable);
            assert_eq!(request.mode, Mode::Release);
            assert_eq!(request.edition, Edition::E2021);
        }
        _ => panic!("expected the compile command"),
    }
}

#[test]
fn compile_without_fence_is_missing_code_block() {
    let c = route(&to_vec(b"!comp fn main(){}"));
    assert!(matches!(c, Command::MissingCodeBlock));
    let c = route(&to_vec(b"!comp ```python x```"));
    assert!(matches!(c, Command::MissingCodeBlock));
}

#[test]
fn graph_title_and_points() {
    match route(&to_vec(b"!graph (Demo) [(1,2), (3,4)]")) {
        Command::Graph { graph } => {
            assert_eq!(graph.title.as_slice(), b"Demo");
            assert_eq!(graph.points, vec![(1, 2), (3, 4)]);
            assert_eq!(graph.x_end, 5);
            assert_eq!(graph.y_end, 6);
        }
        _ => panic!("expected the graph command"),
    }
}

#[test]
fn graph_defaults_for_malformed_numbers() {
    match route(&to_vec(b"!graph (T) [(a,2), (5), (9999999999,1)]")) {
        Command::Graph { graph } => {
            assert_eq!(graph.points, vec![(0, 2), (5, 0), (0, 1)]);
            assert_eq!(graph.x_end, 7);
            assert_eq!(graph.y_end, 4);
        }
        _ => panic!("expected the graph command"),
    }
}

#[test]
fn graph_negative_points_keep_origin_bounds() {
    match route(&to_vec(b"!graph (T) [(-3,-4)]")) {
        Command::Graph { graph } => {
            assert_eq!(graph.points, vec![(-3, -4)]);
            assert_eq!(graph.x_end, 2);
            assert_eq!(graph.y_end, 2);
        }
        _ => panic!("expected the graph command"),
    }
}

#[test]
fn graph_without_points_is_empty() {
    match route(&to_vec(b"!graph (Only Title)")) {
        Command::Graph { graph } => {
            assert_eq!(graph.title.as_slice(), b"Only Title");
            assert!(graph.points.is_empty());
            assert_eq!(graph.x_end, 2);
            assert_eq!(graph.y_end, 2);
        }
        _ => panic!("expected the graph command"),
    }
}

#[test]
fn help_routes_to_help() {
    assert!(matches!(route(&to_vec(b"!help")), Command::Help));
    assert!(matches!(route(&to_vec(b"!HELP please")), Command::Help));
}

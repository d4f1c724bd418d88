//! What each command hands to its external collaborator and what is said
//! back to the channel: the renderer URL, the sandbox request body, the
//! gateway message bodies, and the parsing of the sandbox and upload answers.

use vstd::prelude::*;
use crate::bytes::{lower, strip_spaces, ascii_lower, remove_spaces, eq_bytes};
use crate::command::{Channel, Mode, Edition, CompileRequest};
use crate::json::{json_quoted, json_str_field, json_bool_field, json_quote, json_field, json_flag};
use crate::text::{color_black, color_white, color_blue, color_red, sel_black, sel_white, sel_blue,
    sel_red, base_url, md_open, md_close, reply_fence, sandbox_a, sandbox_b, sandbox_c, sandbox_d,
    sandbox_e, tok_stable, tok_beta, tok_nightly, tok_debug, tok_release, tok_2015, tok_2018,
    tok_2021, body_content_open, body_close, body_attach_open, body_attach_close, auth_open,
    color_black_vec, color_white_vec, color_blue_vec, color_red_vec, sel_black_vec, sel_white_vec,
    sel_blue_vec, sel_red_vec, base_url_vec, md_open_vec, md_close_vec, reply_fence_vec,
    sandbox_a_vec, sandbox_b_vec, sandbox_c_vec, sandbox_d_vec, sandbox_e_vec, tok_stable_vec,
    tok_beta_vec, tok_nightly_vec, tok_debug_vec, tok_release_vec, tok_2015_vec, tok_2018_vec,
    tok_2021_vec, body_content_open_vec, body_close_vec, body_attach_open_vec,
    body_attach_close_vec, auth_open_vec};

verus! {

/// What the sandbox service answered: whether the run succeeded, and the two
/// output streams.
pub struct CompileResponse {
    pub success: bool,
    pub stdout: Vec<u8>,
    pub stderr: Vec<u8>,
}

/// Appends `src` to `dst`.
pub fn push_all(dst: &mut Vec<u8>, src: &Vec<u8>)
    ensures
        final(dst)@ == old(dst)@ + src@,
{
    dst.extend_from_slice(src.as_slice());
}

/// The renderer background selector of a colour token, compared without
/// regard to case; an unknown or empty token selects nothing.
pub open spec fn selector_of(color: Seq<u8>) -> Seq<u8> {
    let c = lower(color);
    if c == color_black() {
        sel_black()
    } else if c == color_white() {
        sel_white()
    } else if c == color_blue() {
        sel_blue()
    } else if c == color_red() {
        sel_red()
    } else {
        Seq::empty()
    }
}

/// The renderer URL of an eval command: endpoint, background selector and
/// equation, with every space removed.
pub open spec fn eval_url_spec(color: Seq<u8>, expression: Seq<u8>) -> Seq<u8> {
    strip_spaces(base_url() + selector_of(color) + expression)
}

/// The markdown image link posted for a rendered equation.
pub open spec fn markdown_link_spec(url: Seq<u8>) -> Seq<u8> {
    md_open() + url + md_close()
}

/// Whatever the colour token and the equation, the renderer URL holds no
/// space.
pub proof fn lemma_eval_url_has_no_spaces(color: Seq<u8>, expression: Seq<u8>)
    ensures
        forall|i: int|
            0 <= i < eval_url_spec(color, expression).len() ==> eval_url_spec(
                color,
                expression,
            )[i] != 32,
{
    crate::bytes::lemma_strip_spaces_removes_all(base_url() + selector_of(color) + expression);
}

/// Builds the renderer URL of an eval command.
pub fn eval_url(color: &Vec<u8>, expression: &Vec<u8>) -> (r: Vec<u8>)
    ensures
        r@ == eval_url_spec(color@, expression@),
{
    let c = ascii_lower(color);
    let mut u = base_url_vec();
    if eq_bytes(&c, &color_black_vec()) {
        push_all(&mut u, &sel_black_vec());
    } else if eq_bytes(&c, &color_white_vec()) {
        push_all(&mut u, &sel_white_vec());
    } else if eq_bytes(&c, &color_blue_vec()) {
        push_all(&mut u, &sel_blue_vec());
    } else if eq_bytes(&c, &color_red_vec()) {
        push_all(&mut u, &sel_red_vec());
    } else {
        proof {
            assert(base_url() + Seq::<u8>::empty() =~= base_url());
        }
    }
    push_all(&mut u, expression);
    remove_spaces(&u)
}

/// Builds the markdown image link of a URL.
pub fn markdown_link(url: &Vec<u8>) -> (r: Vec<u8>)
    ensures
        r@ == markdown_link_spec(url@),
{
    let mut r = md_open_vec();
    push_all(&mut r, url);
    push_all(&mut r, &md_close_vec());
    r
}

/// The token the sandbox request writes for a channel.
pub open spec fn channel_token(c: Channel) -> Seq<u8> {
    match c {
        Channel::Stable => tok_stable(),
        Channel::Beta => tok_beta(),
        Channel::Nightly => tok_nightly(),
    }
}

/// The token the sandbox request writes for a mode.
pub open spec fn mode_token(m: Mode) -> Seq<u8> {
    match m {
        Mode::Debug => tok_debug(),
        Mode::Release => tok_release(),
    }
}

/// The token the sandbox request writes for an edition.
pub open spec fn edition_token(e: Edition) -> Seq<u8> {
    match e {
        Edition::E2015 => tok_2015(),
        Edition::E2018 => tok_2018(),
        Edition::E2021 => tok_2021(),
    }
}

/// The JSON body posted to the sandbox service for a compile request: its
/// channel, edition, quoted source, fixed binary crate type, mode, and tests
/// off.
pub open spec fn sandbox_body_spec(
    channel: Channel,
    mode: Mode,
    edition: Edition,
    code: Seq<u8>,
) -> Seq<u8> {
    sandbox_a() + channel_token(channel) + sandbox_b() + edition_token(edition) + sandbox_c()
        + json_quoted(code) + sandbox_d() + mode_token(mode) + sandbox_e()
}

/// Builds the sandbox request body of a compile request.
pub fn sandbox_body(request: &CompileRequest) -> (r: Vec<u8>)
    ensures
        r@ == sandbox_body_spec(request.channel, request.mode, request.edition, request.code@),
{
    let mut r = sandbox_a_vec();
    match request.channel {
        Channel::Stable => push_all(&mut r, &tok_stable_vec()),
        Channel::Beta => push_all(&mut r, &tok_beta_vec()),
        Channel::Nightly => push_all(&mut r, &tok_nightly_vec()),
    }
    push_all(&mut r, &sandbox_b_vec());
    match request.edition {
        Edition::E2015 => push_all(&mut r, &tok_2015_vec()),
        Edition::E2018 => push_all(&mut r, &tok_2018_vec()),
        Edition::E2021 => push_all(&mut r, &tok_2021_vec()),
    }
    push_all(&mut r, &sandbox_c_vec());
    let quoted = json_quote(&request.code);
    push_all(&mut r, &quoted);
    push_all(&mut r, &sandbox_d_vec());
    match request.mode {
        Mode::Debug => push_all(&mut r, &tok_debug_vec()),
        Mode::Release => push_all(&mut r, &tok_release_vec()),
    }
    push_all(&mut r, &sandbox_e_vec());
    r
}

/// The reply to a compile: a fenced block holding stdout on success and
/// stderr otherwise.
pub open spec fn compile_reply_spec(success: bool, stdout: Seq<u8>, stderr: Seq<u8>) -> Seq<u8> {
    reply_fence() + (if success {
        stdout
    } else {
        stderr
    })
}

/// Builds the reply to a compile from the sandbox answer.
pub fn compile_reply(response: &CompileResponse) -> (r: Vec<u8>)
    ensures
        r@ == compile_reply_spec(response.success, response.stdout@, response.stderr@),
{
    let mut r = reply_fence_vec();
    if response.success {
        push_all(&mut r, &response.stdout);
    } else {
        push_all(&mut r, &response.stderr);
    }
    r
}

/// Whether `r` is the reading of a sandbox answer: its three fields when all
/// are present, and nothing when any is missing or the body is unreadable.
pub open spec fn compile_response_ok(body: Seq<u8>, r: Option<CompileResponse>) -> bool {
    match (
        json_bool_field(body, "success"@),
        json_str_field(body, "stdout"@),
        json_str_field(body, "stderr"@),
    ) {
        (Some(success), Some(stdout), Some(stderr)) => r matches Some(resp) && resp.success
            == success && resp.stdout@ == stdout && resp.stderr@ == stderr,
        _ => r is None,
    }
}

/// Reads a sandbox answer; nothing when a field is missing or unreadable.
pub fn parse_compile_response(body: &Vec<u8>) -> (r: Option<CompileResponse>)
    ensures
        compile_response_ok(body@, r),
{
    let success = json_flag(body, "success");
    let stdout = json_field(body, "stdout");
    let stderr = json_field(body, "stderr");
    match (success, stdout, stderr) {
        (Some(success), Some(stdout), Some(stderr)) => Some(
            CompileResponse { success, stdout, stderr },
        ),
        _ => None,
    }
}

/// Whether `r` is the attachment id of an upload answer.
pub open spec fn upload_id_ok(body: Seq<u8>, r: Option<Vec<u8>>) -> bool {
    match json_str_field(body, "id"@) {
        Some(id) => r matches Some(v) && v@ == id,
        None => r is None,
    }
}

/// Reads the attachment id out of an upload answer.
pub fn parse_upload_response(body: &Vec<u8>) -> (r: Option<Vec<u8>>)
    ensures
        upload_id_ok(body@, r),
{
    json_field(body, "id")
}

/// The body of a plain text message to a channel.
pub open spec fn message_body_spec(text: Seq<u8>) -> Seq<u8> {
    body_content_open() + json_quoted(text) + body_close()
}

/// Builds the body of a plain text message.
pub fn message_body(text: &Vec<u8>) -> (r: Vec<u8>)
    ensures
        r@ == message_body_spec(text@),
{
    let mut r = body_content_open_vec();
    let quoted = json_quote(text);
    push_all(&mut r, &quoted);
    push_all(&mut r, &body_close_vec());
    r
}

/// The body of a message that references one uploaded attachment.
pub open spec fn attachment_body_spec(id: Seq<u8>) -> Seq<u8> {
    body_attach_open() + json_quoted(id) + body_attach_close()
}

/// Builds the body of an attachment message.
pub fn attachment_body(id: &Vec<u8>) -> (r: Vec<u8>)
    ensures
        r@ == attachment_body_spec(id@),
{
    let mut r = body_attach_open_vec();
    let quoted = json_quote(id);
    push_all(&mut r, &quoted);
    push_all(&mut r, &body_attach_close_vec());
    r
}

/// The first frame sent on a fresh session: the credential, quoted, in an
/// authenticate control frame.
pub open spec fn auth_frame_spec(token: Seq<u8>) -> Seq<u8> {
    auth_open() + json_quoted(token) + body_close()
}

/// Builds the authenticate control frame.
pub fn auth_frame(token: &Vec<u8>) -> (r: Vec<u8>)
    ensures
        r@ == auth_frame_spec(token@),
{
    let mut r = auth_open_vec();
    let quoted = json_quote(token);
    push_all(&mut r, &quoted);
    push_all(&mut r, &body_close_vec());
    r
}

} // verus!

//! The byte constants of the command grammars, reply texts and frame
//! bodies: each as a spec-level sequence beside an executable builder that is
//! proved to produce exactly those bytes.

use vstd::prelude::*;

use crate::bytes::vec_of;

verus! {

/// The lowered command prefix `!eval`.
pub open spec fn kw_eval() -> Seq<u8> {
    [33u8, 101u8, 118u8, 97u8, 108u8]@
}

/// Builds [`kw_eval`] as a byte vector.
pub fn kw_eval_vec() -> (r: Vec<u8>)
    ensures
        r@ == kw_eval(),
{
    vec_of(&[33u8, 101u8, 118u8, 97u8, 108u8])
}

/// The lowered command prefix `!comp`.
pub open spec fn kw_comp() -> Seq<u8> {
    [33u8, 99u8, 111u8, 109u8, 112u8]@
}

/// Builds [`kw_comp`] as a byte vector.
pub fn kw_comp_vec() -> (r: Vec<u8>)
    ensures
        r@ == kw_comp(),
{
    vec_of(&[33u8, 99u8, 111u8, 109u8, 112u8])
}

/// The lowered command prefix `!graph`.
pub open spec fn kw_graph() -> Seq<u8> {
    [33u8, 103u8, 114u8, 97u8, 112u8, 104u8]@
}

/// Builds [`kw_graph`] as a byte vector.
pub fn kw_graph_vec() -> (r: Vec<u8>)
    ensures
        r@ == kw_graph(),
{
    vec_of(&[33u8, 103u8, 114u8, 97u8, 112u8, 104u8])
}

/// The lowered command prefix `!help`.
pub open spec fn kw_help() -> Seq<u8> {
    [33u8, 104u8, 101u8, 108u8, 112u8]@
}

/// Builds [`kw_help`] as a byte vector.
pub fn kw_help_vec() -> (r: Vec<u8>)
    ensures
        r@ == kw_help(),
{
    vec_of(&[33u8, 104u8, 101u8, 108u8, 112u8])
}

/// The bare keyword whose first occurrence ends the eval prefix.
pub open spec fn bare_eval() -> Seq<u8> {
    [101u8, 118u8, 97u8, 108u8]@
}

/// Builds [`bare_eval`] as a byte vector.
pub fn bare_eval_vec() -> (r: Vec<u8>)
    ensures
        r@ == bare_eval(),
{
    vec_of(&[101u8, 118u8, 97u8, 108u8])
}

/// The bare keyword whose first occurrence ends the compile prefix.
pub open spec fn bare_comp() -> Seq<u8> {
    [99u8, 111u8, 109u8, 112u8]@
}

/// Builds [`bare_comp`] as a byte vector.
pub fn bare_comp_vec() -> (r: Vec<u8>)
    ensures
        r@ == bare_comp(),
{
    vec_of(&[99u8, 111u8, 109u8, 112u8])
}

/// The bare keyword whose first occurrence ends the graph prefix.
pub open spec fn bare_graph() -> Seq<u8> {
    [103u8, 114u8, 97u8, 112u8, 104u8]@
}

/// Builds [`bare_graph`] as a byte vector.
pub fn bare_graph_vec() -> (r: Vec<u8>)
    ensures
        r@ == bare_graph(),
{
    vec_of(&[103u8, 114u8, 97u8, 112u8, 104u8])
}

/// The opening fence of a rust code block.
pub open spec fn fence_rust() -> Seq<u8> {
    [96u8, 96u8, 96u8, 114u8, 117u8, 115u8, 116u8]@
}

/// Builds [`fence_rust`] as a byte vector.
pub fn fence_rust_vec() -> (r: Vec<u8>)
    ensures
        r@ == fence_rust(),
{
    vec_of(&[96u8, 96u8, 96u8, 114u8, 117u8, 115u8, 116u8])
}

/// A bare three-backtick fence.
pub open spec fn ticks() -> Seq<u8> {
    [96u8, 96u8, 96u8]@
}

/// Builds [`ticks`] as a byte vector.
pub fn ticks_vec() -> (r: Vec<u8>)
    ensures
        r@ == ticks(),
{
    vec_of(&[96u8, 96u8, 96u8])
}

/// Channel token `stable`.
pub open spec fn tok_stable() -> Seq<u8> {
    [115u8, 116u8, 97u8, 98u8, 108u8, 101u8]@
}

/// Builds [`tok_stable`] as a byte vector.
pub fn tok_stable_vec() -> (r: Vec<u8>)
    ensures
        r@ == tok_stable(),
{
    vec_of(&[115u8, 116u8, 97u8, 98u8, 108u8, 101u8])
}

/// Channel token `beta`.
pub open spec fn tok_beta() -> Seq<u8> {
    [98u8, 101u8, 116u8, 97u8]@
}

/// Builds [`tok_beta`] as a byte vector.
pub fn tok_beta_vec() -> (r: Vec<u8>)
    ensures
        r@ == tok_beta(),
{
    vec_of(&[98u8, 101u8, 116u8, 97u8])
}

/// Channel token `nightly`.
pub open spec fn tok_nightly() -> Seq<u8> {
    [110u8, 105u8, 103u8, 104u8, 116u8, 108u8, 121u8]@
}

/// Builds [`tok_nightly`] as a byte vector.
pub fn tok_nightly_vec() -> (r: Vec<u8>)
    ensures
        r@ == tok_nightly(),
{
    vec_of(&[110u8, 105u8, 103u8, 104u8, 116u8, 108u8, 121u8])
}

/// Mode token `debug`.
pub open spec fn tok_debug() -> Seq<u8> {
    [100u8, 101u8, 98u8, 117u8, 103u8]@
}

/// Builds [`tok_debug`] as a byte vector.
pub fn tok_debug_vec() -> (r: Vec<u8>)
    ensures
        r@ == tok_debug(),
{
    vec_of(&[100u8, 101u8, 98u8, 117u8, 103u8])
}

/// Mode token `release`.
pub open spec fn tok_release() -> Seq<u8> {
    [114u8, 101u8, 108u8, 101u8, 97u8, 115u8, 101u8]@
}

/// Builds [`tok_release`] as a byte vector.
pub fn tok_release_vec() -> (r: Vec<u8>)
    ensures
        r@ == tok_release(),
{
    vec_of(&[114u8, 101u8, 108u8, 101u8, 97u8, 115u8, 101u8])
}

/// Edition token `2015`.
pub open spec fn tok_2015() -> Seq<u8> {
    [50u8, 48u8, 49u8, 53u8]@
}

/// Builds [`tok_2015`] as a byte vector.
pub fn tok_2015_vec() -> (r: Vec<u8>)
    ensures
        r@ == tok_2015(),
{
    vec_of(&[50u8, 48u8, 49u8, 53u8])
}

/// Edition token `2018`.
pub open spec fn tok_2018() -> Seq<u8> {
    [50u8, 48u8, 49u8, 56u8]@
}

/// Builds [`tok_2018`] as a byte vector.
pub fn tok_2018_vec() -> (r: Vec<u8>)
    ensures
        r@ == tok_2018(),
{
    vec_of(&[50u8, 48u8, 49u8, 56u8])
}

/// Edition token `2021`.
pub open spec fn tok_2021() -> Seq<u8> {
    [50u8, 48u8, 50u8, 49u8]@
}

/// Builds [`tok_2021`] as a byte vector.
pub fn tok_2021_vec() -> (r: Vec<u8>)
    ensures
        r@ == tok_2021(),
{
    vec_of(&[50u8, 48u8, 50u8, 49u8])
}

/// Colour token `black`.
pub open spec fn color_black() -> Seq<u8> {
    [98u8, 108u8, 97u8, 99u8, 107u8]@
}

/// Builds [`color_black`] as a byte vector.
pub fn color_black_vec() -> (r: Vec<u8>)
    ensures
        r@ == color_black(),
{
    vec_of(&[98u8, 108u8, 97u8, 99u8, 107u8])
}

/// Colour token `white`.
pub open spec fn color_white() -> Seq<u8> {
    [119u8, 104u8, 105u8, 116u8, 101u8]@
}

/// Builds [`color_white`] as a byte vector.
pub fn color_white_vec() -> (r: Vec<u8>)
    ensures
        r@ == color_white(),
{
    vec_of(&[119u8, 104u8, 105u8, 116u8, 101u8])
}

/// Colour token `blue`.
pub open spec fn color_blue() -> Seq<u8> {
    [98u8, 108u8, 117u8, 101u8]@
}

/// Builds [`color_blue`] as a byte vector.
pub fn color_blue_vec() -> (r: Vec<u8>)
    ensures
        r@ == color_blue(),
{
    vec_of(&[98u8, 108u8, 117u8, 101u8])
}

/// Colour token `red`.
pub open spec fn color_red() -> Seq<u8> {
    [114u8, 101u8, 100u8]@
}

/// Builds [`color_red`] as a byte vector.
pub fn color_red_vec() -> (r: Vec<u8>)
    ensures
        r@ == color_red(),
{
    vec_of(&[114u8, 101u8, 100u8])
}

/// Background selector for a black backdrop.
pub open spec fn sel_black() -> Seq<u8> {
    [92u8, 98u8, 103u8, 95u8, 98u8, 108u8, 97u8, 99u8, 107u8]@
}

/// Builds [`sel_black`] as a byte vector.
pub fn sel_black_vec() -> (r: Vec<u8>)
    ensures
        r@ == sel_black(),
{
    vec_of(&[92u8, 98u8, 103u8, 95u8, 98u8, 108u8, 97u8, 99u8, 107u8])
}

/// Background selector for a white backdrop.
pub open spec fn sel_white() -> Seq<u8> {
    [92u8, 98u8, 103u8, 95u8, 119u8, 104u8, 105u8, 116u8, 101u8]@
}

/// Builds [`sel_white`] as a byte vector.
pub fn sel_white_vec() -> (r: Vec<u8>)
    ensures
        r@ == sel_white(),
{
    vec_of(&[92u8, 98u8, 103u8, 95u8, 119u8, 104u8, 105u8, 116u8, 101u8])
}

/// Background selector for a blue backdrop.
pub open spec fn sel_blue() -> Seq<u8> {
    [92u8, 98u8, 103u8, 95u8, 98u8, 108u8, 117u8, 101u8]@
}

/// Builds [`sel_blue`] as a byte vector.
pub fn sel_blue_vec() -> (r: Vec<u8>)
    ensures
        r@ == sel_blue(),
{
    vec_of(&[92u8, 98u8, 103u8, 95u8, 98u8, 108u8, 117u8, 101u8])
}

/// Background selector for a red backdrop.
pub open spec fn sel_red() -> Seq<u8> {
    [92u8, 98u8, 103u8, 95u8, 114u8, 101u8, 100u8]@
}

/// Builds [`sel_red`] as a byte vector.
pub fn sel_red_vec() -> (r: Vec<u8>)
    ensures
        r@ == sel_red(),
{
    vec_of(&[92u8, 98u8, 103u8, 95u8, 114u8, 101u8, 100u8])
}

/// The equation renderer endpoint.
pub open spec fn base_url() -> Seq<u8> {
    [104u8, 116u8, 116u8, 112u8, 115u8, 58u8, 47u8, 47u8, 108u8, 97u8, 116u8, 101u8, 120u8, 46u8, 99u8, 111u8, 100u8, 101u8, 99u8, 111u8, 103u8, 115u8, 46u8, 99u8, 111u8, 109u8, 47u8, 112u8, 110u8, 103u8, 46u8, 108u8, 97u8, 116u8, 101u8, 120u8, 63u8]@
}

/// Builds [`base_url`] as a byte vector.
pub fn base_url_vec() -> (r: Vec<u8>)
    ensures
        r@ == base_url(),
{
    vec_of(&[104u8, 116u8, 116u8, 112u8, 115u8, 58u8, 47u8, 47u8, 108u8, 97u8, 116u8, 101u8, 120u8, 46u8, 99u8, 111u8, 100u8, 101u8, 99u8, 111u8, 103u8, 115u8, 46u8, 99u8, 111u8, 109u8, 47u8, 112u8, 110u8, 103u8, 46u8, 108u8, 97u8, 116u8, 101u8, 120u8, 63u8])
}

/// Opening of a markdown link with empty label.
pub open spec fn md_open() -> Seq<u8> {
    [91u8, 93u8, 40u8]@
}

/// Builds [`md_open`] as a byte vector.
pub fn md_open_vec() -> (r: Vec<u8>)
    ensures
        r@ == md_open(),
{
    vec_of(&[91u8, 93u8, 40u8])
}

/// Closing of a markdown link.
pub open spec fn md_close() -> Seq<u8> {
    [41u8]@
}

/// Builds [`md_close`] as a byte vector.
pub fn md_close_vec() -> (r: Vec<u8>)
    ensures
        r@ == md_close(),
{
    vec_of(&[41u8])
}

/// The fenced prefix of a compile reply.
pub open spec fn reply_fence() -> Seq<u8> {
    [96u8, 96u8, 96u8, 32u8, 10u8, 32u8]@
}

/// Builds [`reply_fence`] as a byte vector.
pub fn reply_fence_vec() -> (r: Vec<u8>)
    ensures
        r@ == reply_fence(),
{
    vec_of(&[96u8, 96u8, 96u8, 32u8, 10u8, 32u8])
}

/// Reply for a compile command without a rust code block.
pub open spec fn err_missing_block() -> Seq<u8> {
    [69u8, 114u8, 114u8, 111u8, 114u8, 32u8, 77u8, 105u8, 115u8, 115u8, 105u8, 110u8, 103u8, 32u8, 99u8, 111u8, 100u8, 101u8, 32u8, 98u8, 108u8, 111u8, 99u8, 107u8]@
}

/// Builds [`err_missing_block`] as a byte vector.
pub fn err_missing_block_vec() -> (r: Vec<u8>)
    ensures
        r@ == err_missing_block(),
{
    vec_of(&[69u8, 114u8, 114u8, 111u8, 114u8, 32u8, 77u8, 105u8, 115u8, 115u8, 105u8, 110u8, 103u8, 32u8, 99u8, 111u8, 100u8, 101u8, 32u8, 98u8, 108u8, 111u8, 99u8, 107u8])
}

/// Reply when the sandbox call fails or answers unreadably.
pub open spec fn err_compile() -> Seq<u8> {
    [69u8, 114u8, 114u8, 111u8, 114u8, 32u8, 84u8, 104u8, 101u8, 32u8, 99u8, 111u8, 109u8, 112u8, 105u8, 108u8, 101u8, 32u8, 115u8, 101u8, 114u8, 118u8, 105u8, 99u8, 101u8, 32u8, 102u8, 97u8, 105u8, 108u8, 101u8, 100u8]@
}

/// Builds [`err_compile`] as a byte vector.
pub fn err_compile_vec() -> (r: Vec<u8>)
    ensures
        r@ == err_compile(),
{
    vec_of(&[69u8, 114u8, 114u8, 111u8, 114u8, 32u8, 84u8, 104u8, 101u8, 32u8, 99u8, 111u8, 109u8, 112u8, 105u8, 108u8, 101u8, 32u8, 115u8, 101u8, 114u8, 118u8, 105u8, 99u8, 101u8, 32u8, 102u8, 97u8, 105u8, 108u8, 101u8, 100u8])
}

/// Reply when fetching the rendered equation fails.
pub open spec fn err_render() -> Seq<u8> {
    [69u8, 114u8, 114u8, 111u8, 114u8, 32u8, 84u8, 104u8, 101u8, 32u8, 101u8, 113u8, 117u8, 97u8, 116u8, 105u8, 111u8, 110u8, 32u8, 105u8, 109u8, 97u8, 103u8, 101u8, 32u8, 99u8, 111u8, 117u8, 108u8, 100u8, 32u8, 110u8, 111u8, 116u8, 32u8, 98u8, 101u8, 32u8, 102u8, 101u8, 116u8, 99u8, 104u8, 101u8, 100u8]@
}

/// Builds [`err_render`] as a byte vector.
pub fn err_render_vec() -> (r: Vec<u8>)
    ensures
        r@ == err_render(),
{
    vec_of(&[69u8, 114u8, 114u8, 111u8, 114u8, 32u8, 84u8, 104u8, 101u8, 32u8, 101u8, 113u8, 117u8, 97u8, 116u8, 105u8, 111u8, 110u8, 32u8, 105u8, 109u8, 97u8, 103u8, 101u8, 32u8, 99u8, 111u8, 117u8, 108u8, 100u8, 32u8, 110u8, 111u8, 116u8, 32u8, 98u8, 101u8, 32u8, 102u8, 101u8, 116u8, 99u8, 104u8, 101u8, 100u8])
}

/// Reply when drawing the scatter plot fails.
pub open spec fn err_chart() -> Seq<u8> {
    [69u8, 114u8, 114u8, 111u8, 114u8, 32u8, 84u8, 104u8, 101u8, 32u8, 99u8, 104u8, 97u8, 114u8, 116u8, 32u8, 99u8, 111u8, 117u8, 108u8, 100u8, 32u8, 110u8, 111u8, 116u8, 32u8, 98u8, 101u8, 32u8, 114u8, 101u8, 110u8, 100u8, 101u8, 114u8, 101u8, 100u8]@
}

/// Builds [`err_chart`] as a byte vector.
pub fn err_chart_vec() -> (r: Vec<u8>)
    ensures
        r@ == err_chart(),
{
    vec_of(&[69u8, 114u8, 114u8, 111u8, 114u8, 32u8, 84u8, 104u8, 101u8, 32u8, 99u8, 104u8, 97u8, 114u8, 116u8, 32u8, 99u8, 111u8, 117u8, 108u8, 100u8, 32u8, 110u8, 111u8, 116u8, 32u8, 98u8, 101u8, 32u8, 114u8, 101u8, 110u8, 100u8, 101u8, 114u8, 101u8, 100u8])
}

/// Reply when the attachment upload fails or answers unreadably.
pub open spec fn err_upload() -> Seq<u8> {
    [69u8, 114u8, 114u8, 111u8, 114u8, 32u8, 84u8, 104u8, 101u8, 32u8, 99u8, 104u8, 97u8, 114u8, 116u8, 32u8, 99u8, 111u8, 117u8, 108u8, 100u8, 32u8, 110u8, 111u8, 116u8, 32u8, 98u8, 101u8, 32u8, 117u8, 112u8, 108u8, 111u8, 97u8, 100u8, 101u8, 100u8]@
}

/// Builds [`err_upload`] as a byte vector.
pub fn err_upload_vec() -> (r: Vec<u8>)
    ensures
        r@ == err_upload(),
{
    vec_of(&[69u8, 114u8, 114u8, 111u8, 114u8, 32u8, 84u8, 104u8, 101u8, 32u8, 99u8, 104u8, 97u8, 114u8, 116u8, 32u8, 99u8, 111u8, 117u8, 108u8, 100u8, 32u8, 110u8, 111u8, 116u8, 32u8, 98u8, 101u8, 32u8, 117u8, 112u8, 108u8, 111u8, 97u8, 100u8, 101u8, 100u8])
}

/// Frame type of a liveness reply.
pub open spec fn frame_pong() -> Seq<u8> {
    [80u8, 111u8, 110u8, 103u8]@
}

/// Builds [`frame_pong`] as a byte vector.
pub fn frame_pong_vec() -> (r: Vec<u8>)
    ensures
        r@ == frame_pong(),
{
    vec_of(&[80u8, 111u8, 110u8, 103u8])
}

/// Frame type of a chat message.
pub open spec fn frame_message() -> Seq<u8> {
    [77u8, 101u8, 115u8, 115u8, 97u8, 103u8, 101u8]@
}

/// Builds [`frame_message`] as a byte vector.
pub fn frame_message_vec() -> (r: Vec<u8>)
    ensures
        r@ == frame_message(),
{
    vec_of(&[77u8, 101u8, 115u8, 115u8, 97u8, 103u8, 101u8])
}

/// Frame type of the authentication acknowledgement.
pub open spec fn frame_authenticated() -> Seq<u8> {
    [65u8, 117u8, 116u8, 104u8, 101u8, 110u8, 116u8, 105u8, 99u8, 97u8, 116u8, 101u8, 100u8]@
}

/// Builds [`frame_authenticated`] as a byte vector.
pub fn frame_authenticated_vec() -> (r: Vec<u8>)
    ensures
        r@ == frame_authenticated(),
{
    vec_of(&[65u8, 117u8, 116u8, 104u8, 101u8, 110u8, 116u8, 105u8, 99u8, 97u8, 116u8, 101u8, 100u8])
}

/// Opening of a text-message body.
pub open spec fn body_content_open() -> Seq<u8> {
    [123u8, 34u8, 99u8, 111u8, 110u8, 116u8, 101u8, 110u8, 116u8, 34u8, 58u8]@
}

/// Builds [`body_content_open`] as a byte vector.
pub fn body_content_open_vec() -> (r: Vec<u8>)
    ensures
        r@ == body_content_open(),
{
    vec_of(&[123u8, 34u8, 99u8, 111u8, 110u8, 116u8, 101u8, 110u8, 116u8, 34u8, 58u8])
}

/// Closing brace of a JSON body.
pub open spec fn body_close() -> Seq<u8> {
    [125u8]@
}

/// Builds [`body_close`] as a byte vector.
pub fn body_close_vec() -> (r: Vec<u8>)
    ensures
        r@ == body_close(),
{
    vec_of(&[125u8])
}

/// Opening of an attachment-message body.
pub open spec fn body_attach_open() -> Seq<u8> {
    [123u8, 34u8, 97u8, 116u8, 116u8, 97u8, 99u8, 104u8, 109u8, 101u8, 110u8, 116u8, 115u8, 34u8, 58u8, 91u8]@
}

/// Builds [`body_attach_open`] as a byte vector.
pub fn body_attach_open_vec() -> (r: Vec<u8>)
    ensures
        r@ == body_attach_open(),
{
    vec_of(&[123u8, 34u8, 97u8, 116u8, 116u8, 97u8, 99u8, 104u8, 109u8, 101u8, 110u8, 116u8, 115u8, 34u8, 58u8, 91u8])
}

/// Closing of an attachment-message body.
pub open spec fn body_attach_close() -> Seq<u8> {
    [93u8, 125u8]@
}

/// Builds [`body_attach_close`] as a byte vector.
pub fn body_attach_close_vec() -> (r: Vec<u8>)
    ensures
        r@ == body_attach_close(),
{
    vec_of(&[93u8, 125u8])
}

/// Sandbox request body up to the channel value.
pub open spec fn sandbox_a() -> Seq<u8> {
    [123u8, 34u8, 99u8, 104u8, 97u8, 110u8, 110u8, 101u8, 108u8, 34u8, 58u8, 34u8]@
}

/// Builds [`sandbox_a`] as a byte vector.
pub fn sandbox_a_vec() -> (r: Vec<u8>)
    ensures
        r@ == sandbox_a(),
{
    vec_of(&[123u8, 34u8, 99u8, 104u8, 97u8, 110u8, 110u8, 101u8, 108u8, 34u8, 58u8, 34u8])
}

/// Sandbox request body between channel and edition.
pub open spec fn sandbox_b() -> Seq<u8> {
    [34u8, 44u8, 34u8, 101u8, 100u8, 105u8, 116u8, 105u8, 111u8, 110u8, 34u8, 58u8, 34u8]@
}

/// Builds [`sandbox_b`] as a byte vector.
pub fn sandbox_b_vec() -> (r: Vec<u8>)
    ensures
        r@ == sandbox_b(),
{
    vec_of(&[34u8, 44u8, 34u8, 101u8, 100u8, 105u8, 116u8, 105u8, 111u8, 110u8, 34u8, 58u8, 34u8])
}

/// Sandbox request body between edition and code.
pub open spec fn sandbox_c() -> Seq<u8> {
    [34u8, 44u8, 34u8, 99u8, 111u8, 100u8, 101u8, 34u8, 58u8]@
}

/// Builds [`sandbox_c`] as a byte vector.
pub fn sandbox_c_vec() -> (r: Vec<u8>)
    ensures
        r@ == sandbox_c(),
{
    vec_of(&[34u8, 44u8, 34u8, 99u8, 111u8, 100u8, 101u8, 34u8, 58u8])
}

/// Sandbox request body between code and mode.
pub open spec fn sandbox_d() -> Seq<u8> {
    [44u8, 34u8, 99u8, 114u8, 97u8, 116u8, 101u8, 84u8, 121u8, 112u8, 101u8, 34u8, 58u8, 34u8, 98u8, 105u8, 110u8, 34u8, 44u8, 34u8, 109u8, 111u8, 100u8, 101u8, 34u8, 58u8, 34u8]@
}

/// Builds [`sandbox_d`] as a byte vector.
pub fn sandbox_d_vec() -> (r: Vec<u8>)
    ensures
        r@ == sandbox_d(),
{
    vec_of(&[44u8, 34u8, 99u8, 114u8, 97u8, 116u8, 101u8, 84u8, 121u8, 112u8, 101u8, 34u8, 58u8, 34u8, 98u8, 105u8, 110u8, 34u8, 44u8, 34u8, 109u8, 111u8, 100u8, 101u8, 34u8, 58u8, 34u8])
}

/// Sandbox request body after the mode value.
pub open spec fn sandbox_e() -> Seq<u8> {
    [34u8, 44u8, 34u8, 116u8, 101u8, 115u8, 116u8, 115u8, 34u8, 58u8, 102u8, 97u8, 108u8, 115u8, 101u8, 125u8]@
}

/// Builds [`sandbox_e`] as a byte vector.
pub fn sandbox_e_vec() -> (r: Vec<u8>)
    ensures
        r@ == sandbox_e(),
{
    vec_of(&[34u8, 44u8, 34u8, 116u8, 101u8, 115u8, 116u8, 115u8, 34u8, 58u8, 102u8, 97u8, 108u8, 115u8, 101u8, 125u8])
}

/// Opening of the authentication frame.
pub open spec fn auth_open() -> Seq<u8> {
    [123u8, 34u8, 116u8, 121u8, 112u8, 101u8, 34u8, 58u8, 34u8, 65u8, 117u8, 116u8, 104u8, 101u8, 110u8, 116u8, 105u8, 99u8, 97u8, 116u8, 101u8, 34u8, 44u8, 34u8, 116u8, 111u8, 107u8, 101u8, 110u8, 34u8, 58u8]@
}

/// Builds [`auth_open`] as a byte vector.
pub fn auth_open_vec() -> (r: Vec<u8>)
    ensures
        r@ == auth_open(),
{
    vec_of(&[123u8, 34u8, 116u8, 121u8, 112u8, 101u8, 34u8, 58u8, 34u8, 65u8, 117u8, 116u8, 104u8, 101u8, 110u8, 116u8, 105u8, 99u8, 97u8, 116u8, 101u8, 34u8, 44u8, 34u8, 116u8, 111u8, 107u8, 101u8, 110u8, 34u8, 58u8])
}

/// The liveness probe frame.
pub open spec fn ping_frame() -> Seq<u8> {
    [123u8, 34u8, 116u8, 121u8, 112u8, 101u8, 34u8, 58u8, 34u8, 80u8, 105u8, 110u8, 103u8, 34u8, 44u8, 34u8, 100u8, 97u8, 116u8, 97u8, 34u8, 58u8, 48u8, 125u8]@
}

/// Builds [`ping_frame`] as a byte vector.
pub fn ping_frame_vec() -> (r: Vec<u8>)
    ensures
        r@ == ping_frame(),
{
    vec_of(&[123u8, 34u8, 116u8, 121u8, 112u8, 101u8, 34u8, 58u8, 34u8, 80u8, 105u8, 110u8, 103u8, 34u8, 44u8, 34u8, 100u8, 97u8, 116u8, 97u8, 34u8, 58u8, 48u8, 125u8])
}

/// The paren bytes that header and title trimming strip.
pub open spec fn parens() -> Seq<u8> {
    [40u8, 41u8]@
}

/// Builds [`parens`] as a byte vector.
pub fn parens_vec() -> (r: Vec<u8>)
    ensures
        r@ == parens(),
{
    vec_of(&[40u8, 41u8])
}

/// The backtick byte that code trimming strips.
pub open spec fn tick_set() -> Seq<u8> {
    [96u8]@
}

/// Builds [`tick_set`] as a byte vector.
pub fn tick_set_vec() -> (r: Vec<u8>)
    ensures
        r@ == tick_set(),
{
    vec_of(&[96u8])
}

/// The fixed help reply enumerating the four commands and their arguments.
pub open spec fn help_text() -> Seq<u8> {
    [96u8, 96u8, 96u8, 32u8, 67u8, 111u8, 109u8, 109u8, 97u8, 110u8, 100u8, 115u8, 58u8, 10u8, 33u8, 104u8, 101u8, 108u8, 112u8, 58u8, 32u8, 115u8, 104u8, 111u8, 119u8, 115u8, 32u8, 116u8, 104u8, 105u8, 115u8, 32u8, 109u8, 101u8, 115u8, 115u8, 97u8, 103u8, 101u8, 46u8, 10u8, 33u8, 103u8, 114u8, 97u8, 112u8, 104u8, 32u8, 40u8, 116u8, 105u8, 116u8, 108u8, 101u8, 41u8, 32u8, 91u8, 40u8, 120u8, 44u8, 121u8, 41u8, 44u8, 32u8, 40u8, 120u8, 44u8, 121u8, 41u8, 93u8, 58u8, 32u8, 100u8, 114u8, 97u8, 119u8, 115u8, 32u8, 97u8, 32u8, 115u8, 99u8, 97u8, 116u8, 116u8, 101u8, 114u8, 32u8, 112u8, 108u8, 111u8, 116u8, 32u8, 111u8, 102u8, 32u8, 116u8, 104u8, 101u8, 32u8, 112u8, 111u8, 105u8, 110u8, 116u8, 115u8, 46u8, 10u8, 33u8, 101u8, 118u8, 97u8, 108u8, 32u8, 40u8, 98u8, 108u8, 97u8, 99u8, 107u8, 47u8, 119u8, 104u8, 105u8, 116u8, 101u8, 47u8, 98u8, 108u8, 117u8, 101u8, 47u8, 114u8, 101u8, 100u8, 41u8, 32u8, 101u8, 113u8, 117u8, 97u8, 116u8, 105u8, 111u8, 110u8, 58u8, 32u8, 114u8, 101u8, 110u8, 100u8, 101u8, 114u8, 115u8, 32u8, 97u8, 32u8, 76u8, 97u8, 84u8, 101u8, 88u8, 32u8, 101u8, 113u8, 117u8, 97u8, 116u8, 105u8, 111u8, 110u8, 59u8, 32u8, 119u8, 105u8, 116u8, 104u8, 111u8, 117u8, 116u8, 32u8, 97u8, 32u8, 99u8, 111u8, 108u8, 111u8, 117u8, 114u8, 32u8, 116u8, 104u8, 101u8, 32u8, 98u8, 97u8, 99u8, 107u8, 103u8, 114u8, 111u8, 117u8, 110u8, 100u8, 32u8, 105u8, 115u8, 32u8, 116u8, 114u8, 97u8, 110u8, 115u8, 112u8, 97u8, 114u8, 101u8, 110u8, 116u8, 46u8, 10u8, 33u8, 99u8, 111u8, 109u8, 112u8, 32u8, 40u8, 115u8, 116u8, 97u8, 98u8, 108u8, 101u8, 47u8, 98u8, 101u8, 116u8, 97u8, 47u8, 110u8, 105u8, 103u8, 104u8, 116u8, 108u8, 121u8, 44u8, 32u8, 114u8, 101u8, 108u8, 101u8, 97u8, 115u8, 101u8, 47u8, 100u8, 101u8, 98u8, 117u8, 103u8, 44u8, 32u8, 50u8, 48u8, 50u8, 49u8, 47u8, 50u8, 48u8, 49u8, 56u8, 47u8, 50u8, 48u8, 49u8, 53u8, 41u8, 32u8, 119u8, 105u8, 116u8, 104u8, 32u8, 97u8, 32u8, 114u8, 117u8, 115u8, 116u8, 32u8, 99u8, 111u8, 100u8, 101u8, 32u8, 98u8, 108u8, 111u8, 99u8, 107u8, 58u8, 32u8, 99u8, 111u8, 109u8, 112u8, 105u8, 108u8, 101u8, 115u8, 32u8, 97u8, 110u8, 100u8, 32u8, 114u8, 117u8, 110u8, 115u8, 32u8, 116u8, 104u8, 101u8, 32u8, 99u8, 111u8, 100u8, 101u8, 59u8, 32u8, 119u8, 105u8, 116u8, 104u8, 111u8, 117u8, 116u8, 32u8, 116u8, 104u8, 101u8, 32u8, 116u8, 114u8, 105u8, 112u8, 108u8, 101u8, 32u8, 116u8, 104u8, 101u8, 32u8, 100u8, 101u8, 102u8, 97u8, 117u8, 108u8, 116u8, 115u8, 32u8, 97u8, 114u8, 101u8, 32u8, 115u8, 116u8, 97u8, 98u8, 108u8, 101u8, 44u8, 32u8, 114u8, 101u8, 108u8, 101u8, 97u8, 115u8, 101u8, 44u8, 32u8, 50u8, 48u8, 50u8, 49u8, 46u8, 96u8, 96u8, 96u8]@
}

/// Builds [`help_text`] as a byte vector.
pub fn help_text_vec() -> (r: Vec<u8>)
    ensures
        r@ == help_text(),
{
    vec_of(&[96u8, 96u8, 96u8, 32u8, 67u8, 111u8, 109u8, 109u8, 97u8, 110u8, 100u8, 115u8, 58u8, 10u8, 33u8, 104u8, 101u8, 108u8, 112u8, 58u8, 32u8, 115u8, 104u8, 111u8, 119u8, 115u8, 32u8, 116u8, 104u8, 105u8, 115u8, 32u8, 109u8, 101u8, 115u8, 115u8, 97u8, 103u8, 101u8, 46u8, 10u8, 33u8, 103u8, 114u8, 97u8, 112u8, 104u8, 32u8, 40u8, 116u8, 105u8, 116u8, 108u8, 101u8, 41u8, 32u8, 91u8, 40u8, 120u8, 44u8, 121u8, 41u8, 44u8, 32u8, 40u8, 120u8, 44u8, 121u8, 41u8, 93u8, 58u8, 32u8, 100u8, 114u8, 97u8, 119u8, 115u8, 32u8, 97u8, 32u8, 115u8, 99u8, 97u8, 116u8, 116u8, 101u8, 114u8, 32u8, 112u8, 108u8, 111u8, 116u8, 32u8, 111u8, 102u8, 32u8, 116u8, 104u8, 101u8, 32u8, 112u8, 111u8, 105u8, 110u8, 116u8, 115u8, 46u8, 10u8, 33u8, 101u8, 118u8, 97u8, 108u8, 32u8, 40u8, 98u8, 108u8, 97u8, 99u8, 107u8, 47u8, 119u8, 104u8, 105u8, 116u8, 101u8, 47u8, 98u8, 108u8, 117u8, 101u8, 47u8, 114u8, 101u8, 100u8, 41u8, 32u8, 101u8, 113u8, 117u8, 97u8, 116u8, 105u8, 111u8, 110u8, 58u8, 32u8, 114u8, 101u8, 110u8, 100u8, 101u8, 114u8, 115u8, 32u8, 97u8, 32u8, 76u8, 97u8, 84u8, 101u8, 88u8, 32u8, 101u8, 113u8, 117u8, 97u8, 116u8, 105u8, 111u8, 110u8, 59u8, 32u8, 119u8, 105u8, 116u8, 104u8, 111u8, 117u8, 116u8, 32u8, 97u8, 32u8, 99u8, 111u8, 108u8, 111u8, 117u8, 114u8, 32u8, 116u8, 104u8, 101u8, 32u8, 98u8, 97u8, 99u8, 107u8, 103u8, 114u8, 111u8, 117u8, 110u8, 100u8, 32u8, 105u8, 115u8, 32u8, 116u8, 114u8, 97u8, 110u8, 115u8, 112u8, 97u8, 114u8, 101u8, 110u8, 116u8, 46u8, 10u8, 33u8, 99u8, 111u8, 109u8, 112u8, 32u8, 40u8, 115u8, 116u8, 97u8, 98u8, 108u8, 101u8, 47u8, 98u8, 101u8, 116u8, 97u8, 47u8, 110u8, 105u8, 103u8, 104u8, 116u8, 108u8, 121u8, 44u8, 32u8, 114u8, 101u8, 108u8, 101u8, 97u8, 115u8, 101u8, 47u8, 100u8, 101u8, 98u8, 117u8, 103u8, 44u8, 32u8, 50u8, 48u8, 50u8, 49u8, 47u8, 50u8, 48u8, 49u8, 56u8, 47u8, 50u8, 48u8, 49u8, 53u8, 41u8, 32u8, 119u8, 105u8, 116u8, 104u8, 32u8, 97u8, 32u8, 114u8, 117u8, 115u8, 116u8, 32u8, 99u8, 111u8, 100u8, 101u8, 32u8, 98u8, 108u8, 111u8, 99u8, 107u8, 58u8, 32u8, 99u8, 111u8, 109u8, 112u8, 105u8, 108u8, 101u8, 115u8, 32u8, 97u8, 110u8, 100u8, 32u8, 114u8, 117u8, 110u8, 115u8, 32u8, 116u8, 104u8, 101u8, 32u8, 99u8, 111u8, 100u8, 101u8, 59u8, 32u8, 119u8, 105u8, 116u8, 104u8, 111u8, 117u8, 116u8, 32u8, 116u8, 104u8, 101u8, 32u8, 116u8, 114u8, 105u8, 112u8, 108u8, 101u8, 32u8, 116u8, 104u8, 101u8, 32u8, 100u8, 101u8, 102u8, 97u8, 117u8, 108u8, 116u8, 115u8, 32u8, 97u8, 114u8, 101u8, 32u8, 115u8, 116u8, 97u8, 98u8, 108u8, 101u8, 44u8, 32u8, 114u8, 101u8, 108u8, 101u8, 97u8, 115u8, 101u8, 44u8, 32u8, 50u8, 48u8, 50u8, 49u8, 46u8, 96u8, 96u8, 96u8])
}

} // verus!

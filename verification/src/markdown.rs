//! Markdown rendering (done by the `sauropod` crate) and the site's own markup on top
//! of it.
use vstd::prelude::*;

use crate::pattern::{regex_replaced, replace_all_matches};

verus! {

/// `[s]text[/s]` blocks (across lines).
pub open spec fn span_pattern() -> Seq<char> {
    "\\[s\\](.*?)\\[/s\\]"@
}

/// `@<(list)>` blocks, as rendered HTML writes them.
pub open spec fn group_mod_pattern() -> Seq<char> {
    "@&lt;\\((.*?)\\)&gt;"@
}

/// `<(list)>` blocks, as rendered HTML writes them.
pub open spec fn mod_pattern() -> Seq<char> {
    "&lt;\\((.*?)\\)&gt;"@
}

/// What the site's markup makes of rendered markdown `out`: span blocks become
/// `<span>` elements, and group-modification and modification blocks become scripts
/// of type `env/group-mod` and `env/mod` (each pattern with multi-line and
/// dot-matches-newline set); `None` where a pattern does not compile.
pub open spec fn site_markup(out: Seq<char>) -> Option<Seq<char>> {
    match regex_replaced(span_pattern(), true, true, out, "<span>$1</span>"@) {
        Some(a) => script_markup(a),
        None => None,
    }
}

/// What the site's markup makes of text whose spans are done: group-modification and
/// modification blocks become scripts of type `env/group-mod` and `env/mod`.
pub open spec fn script_markup(a: Seq<char>) -> Option<Seq<char>> {
    match regex_replaced(
        group_mod_pattern(),
        true,
        true,
        a,
        "<script type=\"env/group-mod\">$1</script>"@,
    ) {
        Some(b) => regex_replaced(
            mod_pattern(),
            true,
            true,
            b,
            "<script type=\"env/mod\">$1</script>"@,
        ),
        None => None,
    }
}

/// Every repetition (`*` or `+`) in the pattern `p` is lazy (followed by `?`): it
/// takes as few characters as it can, so a match ends at the first place it may.
pub open spec fn repetitions_lazy(p: Seq<char>) -> bool {
    forall|i: int|
        0 <= i < p.len() && (p[i] == '*' || p[i] == '+') ==> i + 1 < p.len() && #[trigger] p[i
            + 1] == '?'
}

/// Span blocks are matched one by one: the site's markup first replaces each
/// `[s]...[/s]` block through a pattern that opens with `[s]`, closes with `[/s]`, and
/// whose repetition is lazy, so a span ends at the first `[/s]` after its `[s]` and two
/// blocks give two spans; only then come the script blocks.
pub proof fn law_span_blocks_end_at_first_close(out: Seq<char>)
    ensures
        site_markup(out) == match regex_replaced(
            span_pattern(),
            true,
            true,
            out,
            "<span>$1</span>"@,
        ) {
            Some(a) => script_markup(a),
            None => None,
        },
        span_pattern() == "\\[s\\]"@ + span_pattern().subrange(5, span_pattern().len() - 6)
            + "\\[/s\\]"@,
        repetitions_lazy(span_pattern()),
{
    reveal_strlit("\\[s\\](.*?)\\[/s\\]");
    reveal_strlit("\\[s\\]");
    reveal_strlit("\\[/s\\]");
    let p = span_pattern();
    assert(p.subrange(0, 5) =~= "\\[s\\]"@);
    assert(p.subrange(p.len() - 6, p.len() as int) =~= "\\[/s\\]"@);
    assert(p =~= p.subrange(0, 5) + p.subrange(5, p.len() - 6) + p.subrange(p.len() - 6, p.len() as int));
    assert forall|i: int|
        0 <= i < p.len() && (p[i] == '*' || p[i] == '+') implies i + 1 < p.len() && #[trigger] p[i
        + 1] == '?' by {
        assert(i == 7);
    }
}

/// Applies the site's markup to rendered markdown.
pub fn apply_site_markup(out: String) -> (r: Option<String>)
    ensures
        r.deep_view() == site_markup(out@),
{
    let a = match replace_all_matches("\\[s\\](.*?)\\[/s\\]", true, true, out.as_str(), "<span>$1</span>") {
        Some(a) => a,
        None => {
            return None;
        },
    };
    let b = match replace_all_matches(
        "@&lt;\\((.*?)\\)&gt;",
        true,
        true,
        a.as_str(),
        "<script type=\"env/group-mod\">$1</script>",
    ) {
        Some(b) => b,
        None => {
            return None;
        },
    };
    replace_all_matches(
        "&lt;\\((.*?)\\)&gt;",
        true,
        true,
        b.as_str(),
        "<script type=\"env/mod\">$1</script>",
    )
}

/// What `sauropod::markdown::parse_markdown` renders `input` to when it is given no
/// plugins.
pub uninterp spec fn rendered_markdown(input: Seq<char>) -> Seq<char>;

/// Renders Markdown to HTML by running `sauropod::markdown::parse_markdown(input,
/// Vec::new())` (the crate's own extensions and clean-up, no plugins). The contract ties
/// the result to the name `rendered_markdown`; nothing is stated of the HTML itself.
#[verifier::external_body]
pub fn parse_markdown(original_in: String) -> (r: String)
    ensures
        r@ == rendered_markdown(original_in@),
{
    sauropod::markdown::parse_markdown(original_in, Vec::new())
}

/// Renders Markdown to HTML and applies the lightweight site's markup to the result
/// (the renderer runs its plugins last, on its finished output, so the markup is
/// applied to that output); `None` where a markup pattern does not compile.
pub fn parse_site_markdown(input: String) -> (r: Option<String>)
    ensures
        r.deep_view() == site_markup(rendered_markdown(input@)),
{
    let out = parse_markdown(input);
    apply_site_markup(out)
}

} // verus!

//! Rendering of entity-key templates.

use vstd::prelude::*;
use vstd::string::StrSliceExecFns;

verus! {

/// Characters that may stand between the `{{` of a tag and its sigil: the
/// whitespace the Handlebars grammar skips, the whitespace-control `~` and
/// the `#` of a block tag.
pub open spec fn tag_filler(c: char) -> bool {
    c == ' ' || c == '\t' || c == '\n' || c == '\r' || c == '~' || c == '#'
}

/// The first position at or after `p` that does not hold a filler character
/// (`t.len()` when there is none).
pub open spec fn skip_filler(t: Seq<char>, p: int) -> int
    decreases t.len() - p,
{
    if 0 <= p < t.len() && tag_filler(t[p]) {
        skip_filler(t, p + 1)
    } else {
        p
    }
}

/// A tag opens at `i` whose sigil is `>` (a partial or partial block) or `*`
/// (a decorator such as an inline-partial definition).
pub open spec fn opens_partial_or_decorator(t: Seq<char>, i: int) -> bool {
    &&& 0 <= i && i + 1 < t.len()
    &&& t[i] == '{' && t[i + 1] == '{'
    &&& skip_filler(t, i + 2) < t.len()
    &&& (t[skip_filler(t, i + 2)] == '>' || t[skip_filler(t, i + 2)] == '*')
}

/// A key template that uses no partials and no decorators. Rendering such a
/// template walks its finite syntax tree once; a partial or an inline-partial
/// definition could make rendering recurse without end.
pub open spec fn plain_template(t: Seq<char>) -> bool {
    forall|i: int| 0 <= i < t.len() ==> !#[trigger] opens_partial_or_decorator(t, i)
}

/// The characters of `t`.
fn chars_of(t: &str) -> (r: Vec<char>)
    ensures
        r@ == t@,
{
    let n = t.unicode_len();
    let mut r: Vec<char> = Vec::new();
    let mut i: usize = 0;
    while i < n
        invariant
            n == t@.len(),
            i <= n,
            r@ == t@.take(i as int),
        decreases n - i,
    {
        r.push(t.get_char(i));
        assert(t@.take(i as int + 1) =~= t@.take(i as int).push(t@[i as int]));
        i = i + 1;
    }
    assert(t@.take(n as int) =~= t@);
    r
}

fn is_tag_filler(c: char) -> (r: bool)
    ensures
        r == tag_filler(c),
{
    c == ' ' || c == '\t' || c == '\n' || c == '\r' || c == '~' || c == '#'
}

/// The first position at or after `p` that holds no filler character.
fn skip_filler_at(cs: &Vec<char>, p: usize) -> (r: usize)
    requires
        p <= cs@.len(),
    ensures
        r == skip_filler(cs@, p as int),
        p <= r <= cs@.len(),
{
    let mut q = p;
    while q < cs.len() && is_tag_filler(cs[q])
        invariant
            p <= q <= cs@.len(),
            skip_filler(cs@, p as int) == skip_filler(cs@, q as int),
        decreases cs@.len() - q,
    {
        q = q + 1;
    }
    q
}

/// Whether `t` is a plain key template: one in which no tag opens a partial
/// or a decorator.
pub fn is_plain_template(t: &str) -> (r: bool)
    ensures
        r == plain_template(t@),
{
    let cs = chars_of(t);
    let n = cs.len();
    let mut i: usize = 0;
    while i < n
        invariant
            n == cs@.len(),
            cs@ == t@,
            i <= n,
            forall|k: int| 0 <= k < i ==> !#[trigger] opens_partial_or_decorator(t@, k),
        decreases n - i,
    {
        if i + 1 < n && cs[i] == '{' && cs[i + 1] == '{' {
            let j = skip_filler_at(&cs, i + 2);
            if j < n && (cs[j] == '>' || cs[j] == '*') {
                assert(opens_partial_or_decorator(t@, i as int));
                return false;
            }
        }
        i = i + 1;
    }
    true
}

/// The fields of a row, each name by its characters.
pub open spec fn row_view(row: Seq<(String, serde_json::Value)>) -> Seq<(Seq<char>, serde_json::Value)> {
    row.map_values(|e: (String, serde_json::Value)| (e.0@, e.1))
}

/// What `handlebars::Handlebars::new().render_template` gives for the template
/// `template` over the object whose fields are `row`, or `None` where it fails.
pub uninterp spec fn rendered_key(
    template: Seq<char>,
    row: Seq<(Seq<char>, serde_json::Value)>,
) -> Option<Seq<char>>;

/// Renders the Handlebars template `template` against the row whose fields
/// are `row` (an object with those field names and values), by
/// `handlebars::Handlebars::new().render_template` in its default, non-strict
/// mode; `None` where rendering fails (a malformed template).
///
/// A new registry holds only the built-in helpers, which are deterministic,
/// and no registered partials or other state, so the result
/// depends on the template and the row alone: it is named `rendered_key` of
/// the two. What that text is (a field the template names but the row lacks
/// renders as the empty string, values are HTML-escaped) is left to the name.
///
/// Only plain templates are handed to it: Handlebars refuses a partial that
/// includes itself directly, but not one reached through another partial, nor
/// an inline partial of the template itself, whose rendering recurses until
/// the stack overflows.
#[verifier::external_body]
pub(crate) fn render_key(template: &str, row: &Vec<(String, serde_json::Value)>) -> (r: Option<String>)
    requires
        plain_template(template@),
    ensures
        match r {
            Some(s) => rendered_key(template@, row_view(row@)) == Some(s@),
            None => rendered_key(template@, row_view(row@)) is None,
        },
{
    let data: serde_json::Map<String, serde_json::Value> = row.iter().cloned().collect();
    handlebars::Handlebars::new().render_template(template, &data).ok()
}

} // verus!

//! HTML rendering of the message listing. User-supplied text is escaped
//! character by character so that it can never inject markup.

use vstd::prelude::*;
use vstd::string::{StrSliceExecFns, StringExecFns};
use crate::domain::NewMessage;
use crate::strutil::push_char;

verus! {

/// The replacement for one character under HTML escaping.
pub open spec fn spec_escape_char(c: char) -> Seq<char> {
    if c == '&' {
        "&amp;"@
    } else if c == '<' {
        "&lt;"@
    } else if c == '>' {
        "&gt;"@
    } else if c == '"' {
        "&quot;"@
    } else {
        seq![c]
    }
}

/// A whole text node, escaped.
pub open spec fn spec_escaped(s: Seq<char>) -> Seq<char>
    decreases s.len(),
{
    if s.len() == 0 {
        Seq::<char>::empty()
    } else {
        spec_escaped(s.drop_last()) + spec_escape_char(s.last())
    }
}

/// Escaped text can never inject markup: whatever the input, no character
/// of the escaper's output opens a tag or closes an attribute value, so
/// user-supplied text stays a text node wherever the page puts it.
pub proof fn lemma_escaped_no_markup(s: Seq<char>)
    ensures
        forall|i: int|
            0 <= i < spec_escaped(s).len() ==> (#[trigger] spec_escaped(s)[i]) != '<'
                && spec_escaped(s)[i] != '>' && spec_escaped(s)[i] != '"',
    decreases s.len(),
{
    reveal_strlit("&amp;");
    reveal_strlit("&lt;");
    reveal_strlit("&gt;");
    reveal_strlit("&quot;");
    if s.len() > 0 {
        lemma_escaped_no_markup(s.drop_last());
        let prefix = spec_escaped(s.drop_last());
        let tail = spec_escape_char(s.last());
        assert forall|i: int| 0 <= i < spec_escaped(s).len() implies (
        #[trigger] spec_escaped(s)[i]) != '<' && spec_escaped(s)[i] != '>' && spec_escaped(s)[i]
            != '"' by {
            if i >= prefix.len() {
                assert(spec_escaped(s)[i] == tail[i - prefix.len()]);
            }
        }
    }
}

/// Append `s` to `out`, escaped.
pub fn append_escaped(out: &mut String, s: &str)
    ensures
        final(out)@ == old(out)@ + spec_escaped(s@),
{
    let ghost out0: Seq<char> = out@;
    let n = s.unicode_len();
    let mut i: usize = 0;
    while i < n
        invariant
            i <= n,
            n == s@.len(),
            out@ == out0 + spec_escaped(s@.take(i as int)),
        decreases n - i,
    {
        let c = s.get_char(i);
        proof {
            assert(s@.take(i as int + 1).drop_last() =~= s@.take(i as int));
            assert(s@.take(i as int + 1).last() == s@[i as int]);
        }
        if c == '&' {
            out.append("&amp;");
        } else if c == '<' {
            out.append("&lt;");
        } else if c == '>' {
            out.append("&gt;");
        } else if c == '"' {
            out.append("&quot;");
        } else {
            push_char(out, c);
        }
        proof {
            assert(out@ =~= out0 + spec_escaped(s@.take(i as int + 1)));
        }
        i += 1;
    }
    proof {
        assert(s@.take(n as int) =~= s@);
    }
}

/// Everything of the page that comes before the list items.
pub open spec fn spec_page_header() -> Seq<char> {
    "<head><title>microservice</title><style>body { font-family: monospace }</style></head><body><ul>"@
}

/// Everything of the page that comes after the list items.
pub open spec fn spec_page_footer() -> Seq<char> {
    "</ul></body>"@
}

/// The views of a message's two fields, the shape the page specs speak of.
pub open spec fn spec_message_view(m: NewMessage) -> (Seq<char>, Seq<char>) {
    (m.username@, m.message@)
}

/// The field views of a whole message sequence.
pub open spec fn spec_messages_view(ms: Seq<NewMessage>) -> Seq<(Seq<char>, Seq<char>)> {
    ms.map_values(|m: NewMessage| spec_message_view(m))
}

/// One list item: the escaped username, a space, the escaped message.
pub open spec fn spec_list_item(p: (Seq<char>, Seq<char>)) -> Seq<char> {
    "<li>"@ + spec_escaped(p.0) + " "@ + spec_escaped(p.1) + "</li>"@
}

/// All list items in order.
pub open spec fn spec_list_items(ps: Seq<(Seq<char>, Seq<char>)>) -> Seq<char>
    decreases ps.len(),
{
    if ps.len() == 0 {
        Seq::<char>::empty()
    } else {
        spec_list_items(ps.drop_last()) + spec_list_item(ps.last())
    }
}

/// The complete listing page for a sequence of stored messages, given by
/// the views of their fields.
pub open spec fn spec_render_page(ps: Seq<(Seq<char>, Seq<char>)>) -> Seq<char> {
    spec_page_header() + spec_list_items(ps) + spec_page_footer()
}

/// Render the message listing as an HTML page, one `<li>` per message.
pub fn render_page(messages: Vec<NewMessage>) -> (r: String)
    ensures
        r@ == spec_render_page(spec_messages_view(messages@)),
{
    let mut out = String::from_str(
        "<head><title>microservice</title><style>body { font-family: monospace }</style></head><body><ul>",
    );
    let ghost view: Seq<(Seq<char>, Seq<char>)> = spec_messages_view(messages@);
    let n = messages.len();
    let mut i: usize = 0;
    while i < n
        invariant
            i <= n,
            n == messages@.len(),
            view == spec_messages_view(messages@),
            view.len() == n,
            out@ == spec_page_header() + spec_list_items(view.take(i as int)),
        decreases n - i,
    {
        proof {
            assert(view.take(i as int + 1).drop_last() =~= view.take(i as int));
            assert(view.take(i as int + 1).last() == view[i as int]);
            assert(view[i as int] == spec_message_view(messages@[i as int]));
        }
        out.append("<li>");
        append_escaped(&mut out, messages[i].username.as_str());
        out.append(" ");
        append_escaped(&mut out, messages[i].message.as_str());
        out.append("</li>");
        proof {
            assert(out@ =~= spec_page_header() + spec_list_items(view.take(i as int + 1)));
        }
        i += 1;
    }
    proof {
        assert(view.take(n as int) =~= view);
    }
    out.append("</ul></body>");
    proof {
        assert(out@ =~= spec_render_page(spec_messages_view(messages@)));
    }
    out
}

} // verus!

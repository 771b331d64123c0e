//! A list of names as the text of a JSON array of strings.
//!
//! Inside a string literal only the backslash and the double quote are
//! escaped, each by a backslash in front of it.
use vstd::prelude::*;

verus! {

/// One character as it stands inside a string literal.
pub open spec fn escaped_char(c: char) -> Seq<char> {
    if c == '\\' || c == '"' {
        seq!['\\', c]
    } else {
        seq![c]
    }
}

/// A text as it stands inside a string literal.
pub open spec fn escaped(text: Seq<char>) -> Seq<char>
    decreases text.len(),
{
    if text.len() == 0 {
        Seq::empty()
    } else {
        escaped_char(text[0]) + escaped(text.drop_first())
    }
}

/// The string literal for a text.
pub open spec fn quoted(text: Seq<char>) -> Seq<char> {
    seq!['"'] + escaped(text) + seq!['"']
}

/// The string literals for the names, with a comma between neighbours.
pub open spec fn joined(names: Seq<Seq<char>>) -> Seq<char>
    decreases names.len(),
{
    if names.len() == 0 {
        Seq::empty()
    } else if names.len() == 1 {
        quoted(names[0])
    } else {
        quoted(names[0]) + seq![','] + joined(names.drop_first())
    }
}

/// The text of the JSON array that lists the names.
pub open spec fn json_array_text(names: Seq<Seq<char>>) -> Seq<char> {
    seq!['['] + joined(names) + seq![']']
}

/// The texts of a sequence of strings.
pub open spec fn texts(names: Seq<String>) -> Seq<Seq<char>> {
    names.map_values(|name: String| name@)
}

/// Reads a string literal whose opening quote has been consumed: gives the
/// text that it stands for and what follows its closing quote.
pub open spec fn read_string(text: Seq<char>) -> Option<(Seq<char>, Seq<char>)>
    decreases text.len(),
{
    if text.len() == 0 {
        None
    } else if text[0] == '"' {
        Some((Seq::empty(), text.drop_first()))
    } else if text[0] == '\\' {
        if text.len() < 2 {
            None
        } else {
            match read_string(text.skip(2)) {
                Some((body, rest)) => Some((seq![text[1]] + body, rest)),
                None => None,
            }
        }
    } else {
        match read_string(text.drop_first()) {
            Some((body, rest)) => Some((seq![text[0]] + body, rest)),
            None => None,
        }
    }
}

/// Reads string literals separated by commas up to the closing bracket,
/// which must end the text.
pub open spec fn read_items(text: Seq<char>) -> Option<Seq<Seq<char>>>
    decreases text.len(),
{
    if text.len() == 0 || text[0] != '"' {
        None
    } else {
        match read_string(text.drop_first()) {
            None => None,
            Some((name, rest)) => if rest.len() >= text.len() {
                None
            } else if rest == seq![']'] {
                Some(seq![name])
            } else if rest.len() > 0 && rest[0] == ',' {
                match read_items(rest.drop_first()) {
                    Some(names) => Some(seq![name] + names),
                    None => None,
                }
            } else {
                None
            },
        }
    }
}

/// Reads the text of a JSON array of string literals back into the names.
pub open spec fn parse_json_array(text: Seq<char>) -> Option<Seq<Seq<char>>> {
    if text == seq!['[', ']'] {
        Some(Seq::empty())
    } else if text.len() > 0 && text[0] == '[' {
        read_items(text.drop_first())
    } else {
        None
    }
}

proof fn lemma_escaped_push(text: Seq<char>, c: char)
    ensures
        escaped(text.push(c)) == escaped(text) + escaped_char(c),
    decreases text.len(),
{
    if text.len() == 0 {
        assert(text.push(c)[0] == c);
        assert(text.push(c).drop_first() =~= Seq::<char>::empty());
        assert(escaped(Seq::<char>::empty()) =~= Seq::<char>::empty());
        assert(text =~= Seq::<char>::empty());
        assert(escaped(text.push(c)) =~= escaped(text) + escaped_char(c));
    } else {
        assert(text.push(c)[0] == text[0]);
        assert(text.push(c).drop_first() =~= text.drop_first().push(c));
        lemma_escaped_push(text.drop_first(), c);
        assert(escaped(text.push(c)) =~= escaped(text) + escaped_char(c));
    }
}

proof fn lemma_joined_push(names: Seq<Seq<char>>, name: Seq<char>)
    ensures
        joined(names.push(name)) == if names.len() == 0 {
            quoted(name)
        } else {
            joined(names) + seq![','] + quoted(name)
        },
    decreases names.len(),
{
    let all = names.push(name);
    if names.len() == 0 {
    } else if names.len() == 1 {
        assert(all.drop_first() =~= seq![name]);
        assert(joined(all.drop_first()) == quoted(name));
    } else {
        assert(all.drop_first() =~= names.drop_first().push(name));
        lemma_joined_push(names.drop_first(), name);
        assert(joined(all) =~= joined(names) + seq![','] + quoted(name));
    }
}

/// A string literal reads back as the text it was written for, whatever
/// follows it.
pub proof fn lemma_read_string_of_escaped(text: Seq<char>, rest: Seq<char>)
    ensures
        read_string(escaped(text) + seq!['"'] + rest) == Some((text, rest)),
    decreases text.len(),
{
    let written = escaped(text) + seq!['"'] + rest;
    if text.len() == 0 {
        assert(written.drop_first() =~= rest);
    } else {
        let c = text[0];
        let tail = text.drop_first();
        let written_tail = escaped(tail) + seq!['"'] + rest;
        lemma_read_string_of_escaped(tail, rest);
        if c == '\\' || c == '"' {
            assert(written[0] == '\\');
            assert(written[1] == c);
            assert(written.skip(2) =~= written_tail);
        } else {
            assert(written[0] == c);
            assert(written.drop_first() =~= written_tail);
        }
        assert(seq![c] + tail =~= text);
    }
}

proof fn lemma_read_items_of_joined(names: Seq<Seq<char>>)
    requires
        names.len() > 0,
    ensures
        read_items(joined(names) + seq![']']) == Some(names),
    decreases names.len(),
{
    let written = joined(names) + seq![']'];
    let after = if names.len() == 1 {
        seq![']']
    } else {
        seq![','] + joined(names.drop_first()) + seq![']']
    };
    lemma_read_string_of_escaped(names[0], after);
    assert(written.drop_first() =~= escaped(names[0]) + seq!['"'] + after);
    assert(written[0] == '"');
    assert(written.len() == after.len() + escaped(names[0]).len() + 2);
    if names.len() == 1 {
        assert(seq![names[0]] =~= names);
    } else {
        assert(after[0] == ',');
        assert(after.drop_first() =~= joined(names.drop_first()) + seq![']']);
        lemma_read_items_of_joined(names.drop_first());
        assert(seq![names[0]] + names.drop_first() =~= names);
    }
}

/// Every list of names can be read back from the text written for it:
/// whatever a name holds, quotes and backslashes included, it comes back
/// character for character.
pub proof fn lemma_json_array_round_trip(names: Seq<Seq<char>>)
    ensures
        parse_json_array(json_array_text(names)) == Some(names),
{
    let written = json_array_text(names);
    if names.len() == 0 {
        assert(written =~= seq!['[', ']']);
        assert(names =~= Seq::<Seq<char>>::empty());
    } else {
        assert(joined(names).len() >= 2) by {
            if names.len() > 1 {
            }
        }
        assert(written.len() >= 4);
        assert(written[0] == '[');
        assert(written.drop_first() =~= joined(names) + seq![']']);
        lemma_read_items_of_joined(names);
    }
}

/// Whether one of the names holds the NUL character.
pub open spec fn any_nul(names: Seq<Seq<char>>) -> bool {
    exists|i: int| 0 <= i < names.len() && (#[trigger] names[i]).contains('\0')
}

proof fn lemma_contains_concat(a: Seq<char>, b: Seq<char>, c: char)
    ensures
        (a + b).contains(c) <==> a.contains(c) || b.contains(c),
{
    if a.contains(c) {
        let i = choose|i: int| 0 <= i < a.len() && a[i] == c;
        assert((a + b)[i] == c);
    }
    if b.contains(c) {
        let i = choose|i: int| 0 <= i < b.len() && b[i] == c;
        assert((a + b)[a.len() + i] == c);
    }
    if (a + b).contains(c) {
        let i = choose|i: int| 0 <= i < (a + b).len() && (a + b)[i] == c;
        if i < a.len() {
            assert(a[i] == c);
        } else {
            assert(b[i - a.len()] == c);
        }
    }
}

proof fn lemma_escaped_nul(text: Seq<char>)
    ensures
        escaped(text).contains('\0') <==> text.contains('\0'),
    decreases text.len(),
{
    if text.len() > 0 {
        let head = escaped_char(text[0]);
        let tail = text.drop_first();
        lemma_escaped_nul(tail);
        lemma_contains_concat(head, escaped(tail), '\0');
        lemma_contains_concat(seq![text[0]], tail, '\0');
        assert(seq![text[0]] + tail =~= text);
        assert(seq![text[0]].contains('\0') <==> text[0] == '\0') by {
            if text[0] == '\0' {
                assert(seq![text[0]][0] == '\0');
            }
        }
        assert(head.contains('\0') <==> text[0] == '\0') by {
            if text[0] == '\0' {
                assert(head[0] == '\0');
            }
        }
    }
}

proof fn lemma_quoted_nul(text: Seq<char>)
    ensures
        quoted(text).contains('\0') <==> text.contains('\0'),
{
    lemma_escaped_nul(text);
    lemma_contains_concat(seq!['"'], escaped(text), '\0');
    lemma_contains_concat(seq!['"'] + escaped(text), seq!['"'], '\0');
}

proof fn lemma_joined_nul(names: Seq<Seq<char>>)
    ensures
        joined(names).contains('\0') <==> any_nul(names),
    decreases names.len(),
{
    if names.len() > 0 {
        let tail = names.drop_first();
        lemma_quoted_nul(names[0]);
        lemma_joined_nul(tail);
        if names.len() > 1 {
            lemma_contains_concat(quoted(names[0]), seq![','], '\0');
            lemma_contains_concat(quoted(names[0]) + seq![','], joined(tail), '\0');
        } else {
            assert(!any_nul(tail));
        }
        if any_nul(names) {
            let i = choose|i: int| 0 <= i < names.len() && (#[trigger] names[i]).contains('\0');
            if i > 0 {
                assert(tail[i - 1].contains('\0'));
            }
        }
        if any_nul(tail) {
            let i = choose|i: int| 0 <= i < tail.len() && (#[trigger] tail[i]).contains('\0');
            assert(names[i + 1].contains('\0'));
        }
    }
}

/// The text of the array holds the NUL character exactly where one of the
/// names does.
pub proof fn lemma_json_array_nul(names: Seq<Seq<char>>)
    ensures
        json_array_text(names).contains('\0') <==> any_nul(names),
{
    lemma_joined_nul(names);
    lemma_contains_concat(seq!['['], joined(names), '\0');
    lemma_contains_concat(seq!['['] + joined(names), seq![']'], '\0');
}

/// `String::push`, believed to append the one character and change nothing
/// else.
#[verifier::external_body]
fn push_char(text: &mut String, c: char)
    ensures
        final(text)@ == old(text)@.push(c),
{
    text.push(c)
}

fn push_escaped(out: &mut String, text: &str)
    ensures
        final(out)@ == old(out)@ + escaped(text@),
{
    broadcast use vstd::string::group_string_axioms;

    let chars = text.chars();
    for c in it: chars
        invariant
            it.seq() == text@,
            out@ == old(out)@ + escaped(text@.take(it.index())),
    {
        proof {
            lemma_escaped_push(text@.take(it.index()), c);
            assert(text@.take(it.index() + 1) =~= text@.take(it.index()).push(c));
        }
        if c == '\\' || c == '"' {
            push_char(out, '\\');
        }
        push_char(out, c);
        assert(out@ =~= old(out)@ + escaped(text@.take(it.index() + 1)));
    }
    assert(text@.take(text@.len() as int) =~= text@);
}

/// Writes the names as a JSON array of strings.
pub fn json_array(names: &[String]) -> (json: String)
    ensures
        json@ == json_array_text(texts(names@)),
{
    let ghost all = texts(names@);
    let mut json = String::new();
    push_char(&mut json, '[');
    let mut i: usize = 0;
    while i < names.len()
        invariant
            i <= names@.len(),
            all == texts(names@),
            json@ == seq!['['] + joined(all.take(i as int)),
        decreases names@.len() - i,
    {
        proof {
            lemma_joined_push(all.take(i as int), all[i as int]);
            assert(all.take(i + 1) =~= all.take(i as int).push(all[i as int]));
        }
        if i > 0 {
            push_char(&mut json, ',');
        }
        push_char(&mut json, '"');
        push_escaped(&mut json, names[i].as_str());
        push_char(&mut json, '"');
        i = i + 1;
        assert(json@ =~= seq!['['] + joined(all.take(i as int)));
    }
    assert(all.take(names@.len() as int) =~= all);
    push_char(&mut json, ']');
    json
}

} // verus!

use vstd::prelude::*;
use vstd::string::*;
use crate::encoding::{
    append_encoded, decoded, decoded_text, encoded_text, is_output_char, law_decoded_encoded,
    law_decoded_text, law_encoded_chars, push_char, Encoding,
};
use crate::text::{
    all_free_of, free_of, joined, lemma_joined_free_of, lemma_joined_push, lemma_split_joined,
    lemma_until_prefix, pair_texts, split, texts,
};

verus! {

/// The two services that requests go to.
#[derive(Clone, Copy, Debug, PartialEq, Eq, Structural)]
pub enum Host {
    /// The REST service.
    Rest,
    /// The streaming service, whose responses do not end.
    Stream,
}

/// Scheme and authority of a service.
pub open spec fn origin(host: Host) -> Seq<char> {
    match host {
        Host::Rest => "https://api.shodan.io"@,
        Host::Stream => "https://stream.shodan.io"@,
    }
}

/// What `/` separates in a path: nothing before the first `/`, then each segment, encoded.
pub open spec fn path_parts(segments: Seq<Seq<char>>) -> Seq<Seq<char>> {
    seq![Seq::<char>::empty()] + segments.map_values(
        |segment: Seq<char>| encoded_text(Encoding::Component, segment),
    )
}

/// The path of a URL: `/` and the encoded segment, for each segment.
pub open spec fn path_text(segments: Seq<Seq<char>>) -> Seq<char> {
    joined(path_parts(segments), '/')
}

/// A name and its value: both encoded, with `=` between them.
pub open spec fn pair_text(mode: Encoding, pair: (Seq<char>, Seq<char>)) -> Seq<char> {
    encoded_text(mode, pair.0) + seq!['='] + encoded_text(mode, pair.1)
}

/// What `&` separates in a list of pairs.
pub open spec fn pair_parts(mode: Encoding, pairs: Seq<(Seq<char>, Seq<char>)>) -> Seq<Seq<char>> {
    pairs.map_values(|pair: (Seq<char>, Seq<char>)| pair_text(mode, pair))
}

/// A list of pairs, with `&` between each two.
pub open spec fn pairs_text(mode: Encoding, pairs: Seq<(Seq<char>, Seq<char>)>) -> Seq<char> {
    joined(pair_parts(mode, pairs), '&')
}

/// The query of a URL: nothing where there are no pairs, else `?` and the pairs.
pub open spec fn query_text(pairs: Seq<(Seq<char>, Seq<char>)>) -> Seq<char> {
    if pairs.len() == 0 {
        Seq::empty()
    } else {
        seq!['?'] + pairs_text(Encoding::Component, pairs)
    }
}

/// What follows the origin in a URL: the path, then the query.
pub open spec fn target_text(
    segments: Seq<Seq<char>>,
    pairs: Seq<(Seq<char>, Seq<char>)>,
) -> Seq<char> {
    path_text(segments) + query_text(pairs)
}

/// A whole URL.
pub open spec fn url_text(
    host: Host,
    segments: Seq<Seq<char>>,
    pairs: Seq<(Seq<char>, Seq<char>)>,
) -> Seq<char> {
    origin(host) + target_text(segments, pairs)
}

/// The body of a form: its pairs in the form encoding.
pub open spec fn form_text(pairs: Seq<(Seq<char>, Seq<char>)>) -> Seq<char> {
    pairs_text(Encoding::Form, pairs)
}

/// Appends `/` and the encoded segment to `out`, for each segment. A segment that
/// is `.` or `..` is written as it is: no escape keeps a URL parser from resolving
/// one.
pub fn append_path(out: &mut String, segments: &Vec<&str>)
    ensures
        final(out)@ == old(out)@ + path_text(texts(segments@)),
{
    let ghost before = out@;
    let ghost names = texts(segments@);
    let mut i: usize = 0;
    while i < segments.len()
        invariant
            i <= segments.len(),
            names == texts(segments@),
            out@ == before + joined(path_parts(names.take(i as int)), '/'),
        decreases segments.len() - i,
    {
        push_char(out, '/');
        append_encoded(out, Encoding::Component, segments[i]);
        proof {
            let part = encoded_text(Encoding::Component, names[i as int]);
            lemma_joined_push(path_parts(names.take(i as int)), part, '/');
            assert(path_parts(names.take(i as int)).push(part) =~= path_parts(
                names.take(i + 1),
            ));
        }
        i += 1;
    }
    assert(names.take(segments.len() as int) =~= names);
}

/// Appends the pairs to `out`, each encoded in `mode`, with `&` between each two.
pub fn append_pairs(out: &mut String, mode: Encoding, pairs: &Vec<(&str, &str)>)
    ensures
        final(out)@ == old(out)@ + pairs_text(mode, pair_texts(pairs@)),
{
    let ghost before = out@;
    let ghost items = pair_texts(pairs@);
    let mut i: usize = 0;
    while i < pairs.len()
        invariant
            i <= pairs.len(),
            items == pair_texts(pairs@),
            out@ == before + joined(pair_parts(mode, items.take(i as int)), '&'),
        decreases pairs.len() - i,
    {
        if i > 0 {
            push_char(out, '&');
        }
        append_encoded(out, mode, pairs[i].0);
        push_char(out, '=');
        append_encoded(out, mode, pairs[i].1);
        proof {
            let part = pair_text(mode, items[i as int]);
            lemma_joined_push(pair_parts(mode, items.take(i as int)), part, '&');
            assert(pair_parts(mode, items.take(i as int)).push(part) =~= pair_parts(
                mode,
                items.take(i + 1),
            ));
        }
        i += 1;
    }
    assert(items.take(pairs.len() as int) =~= items);
}

/// The URL of a request to `host`, with the given path segments and query pairs.
pub fn build_url(host: Host, segments: &Vec<&str>, query: &Vec<(&str, &str)>) -> (url: String)
    ensures
        url@ == url_text(host, texts(segments@), pair_texts(query@)),
{
    let mut url = match host {
        Host::Rest => String::from_str("https://api.shodan.io"),
        Host::Stream => String::from_str("https://stream.shodan.io"),
    };
    append_path(&mut url, segments);
    if query.len() > 0 {
        push_char(&mut url, '?');
        append_pairs(&mut url, Encoding::Component, query);
    }
    url
}

/// The body of a form with the given pairs.
pub fn form_body(pairs: &Vec<(&str, &str)>) -> (body: String)
    ensures
        body@ == form_text(pair_texts(pairs@)),
{
    let mut body = String::new();
    append_pairs(&mut body, Encoding::Form, pairs);
    body
}

/// What a server reads in the part of a URL that follows the origin.
pub struct Target {
    pub segments: Seq<Seq<char>>,
    pub pairs: Seq<(Seq<char>, Seq<char>)>,
}

/// A name and a value, as a text with one `=` says them.
pub open spec fn parsed_pair(mode: Encoding, text: Seq<char>) -> Option<(Seq<char>, Seq<char>)> {
    let halves = split(text, '=');
    if halves.len() == 2 && decoded_text(mode, halves[0]) is Some && decoded_text(
        mode,
        halves[1],
    ) is Some {
        Some((decoded_text(mode, halves[0])->0, decoded_text(mode, halves[1])->0))
    } else {
        None
    }
}

/// The pairs that a text says, read between its `&`.
pub open spec fn parsed_pairs(mode: Encoding, text: Seq<char>) -> Option<
    Seq<(Seq<char>, Seq<char>)>,
> {
    let parts = split(text, '&');
    if forall|i: int| 0 <= i < parts.len() ==> parsed_pair(mode, #[trigger] parts[i]) is Some {
        Some(parts.map_values(|part: Seq<char>| parsed_pair(mode, part)->0))
    } else {
        None
    }
}

/// The segments that a path says, read between its `/`.
pub open spec fn parsed_path(text: Seq<char>) -> Option<Seq<Seq<char>>> {
    let parts = split(text, '/');
    if parts[0].len() == 0 && forall|i: int|
        1 <= i < parts.len() ==> decoded_text(Encoding::Component, #[trigger] parts[i]) is Some {
        Some(
            Seq::new(
                (parts.len() - 1) as nat,
                |i: int| decoded_text(Encoding::Component, parts[i + 1])->0,
            ),
        )
    } else {
        None
    }
}

/// The segments and pairs that a target says: the path before the first `?`, the
/// pairs after it.
pub open spec fn parsed_target(text: Seq<char>) -> Option<Target> {
    let halves = split(text, '?');
    if halves.len() == 1 {
        match parsed_path(halves[0]) {
            Some(segments) => Some(Target { segments, pairs: Seq::empty() }),
            None => None,
        }
    } else if halves.len() == 2 {
        match (parsed_path(halves[0]), parsed_pairs(Encoding::Component, halves[1])) {
            (Some(segments), Some(pairs)) => Some(Target { segments, pairs }),
            _ => None,
        }
    } else {
        None
    }
}

/// A character that separates the parts of a URL or of a form.
pub open spec fn is_delimiter(c: char) -> bool {
    c == '/' || c == '?' || c == '#' || c == '&' || c == '='
}

/// A segment that a URL parser does not keep as a segment but steps over or back
/// with: one that stands for `.` or `..`, written with escapes or without.
pub open spec fn is_dot_segment(text: Seq<char>) -> bool {
    ||| decoded(Encoding::Component, text) == Some(seq![0x2Eu8])
    ||| decoded(Encoding::Component, text) == Some(seq![0x2Eu8, 0x2Eu8])
}

/// No encoded text holds a delimiter.
pub proof fn lemma_encoded_free_of(mode: Encoding, text: Seq<char>, mark: char)
    requires
        is_delimiter(mark),
    ensures
        free_of(encoded_text(mode, text), mark),
{
    law_encoded_chars(mode, vstd::utf8::encode_utf8(text));
    let out = encoded_text(mode, text);
    assert forall|i: int| 0 <= i < out.len() implies out[i] != mark by {
        assert(is_output_char(mode, out[i]));
    }
}

/// The text of a pair says that pair, and holds no `&` and no `?`.
pub proof fn lemma_parsed_pair(mode: Encoding, pair: (Seq<char>, Seq<char>))
    ensures
        parsed_pair(mode, pair_text(mode, pair)) == Some(pair),
        free_of(pair_text(mode, pair), '&'),
        free_of(pair_text(mode, pair), '?'),
{
    let halves = seq![encoded_text(mode, pair.0), encoded_text(mode, pair.1)];
    lemma_encoded_free_of(mode, pair.0, '=');
    lemma_encoded_free_of(mode, pair.1, '=');
    lemma_encoded_free_of(mode, pair.0, '&');
    lemma_encoded_free_of(mode, pair.1, '&');
    lemma_encoded_free_of(mode, pair.0, '?');
    lemma_encoded_free_of(mode, pair.1, '?');
    assert(joined(halves.drop_first(), '=') == halves[1]);
    lemma_split_joined(halves, '=');
    lemma_joined_free_of(halves, '=', '&');
    lemma_joined_free_of(halves, '=', '?');
    law_decoded_text(mode, pair.0);
    law_decoded_text(mode, pair.1);
}

/// The text of one pair or more says those pairs, and holds no `?`.
pub proof fn lemma_parsed_pairs(mode: Encoding, pairs: Seq<(Seq<char>, Seq<char>)>)
    requires
        pairs.len() > 0,
    ensures
        parsed_pairs(mode, pairs_text(mode, pairs)) == Some(pairs),
        free_of(pairs_text(mode, pairs), '?'),
{
    let parts = pair_parts(mode, pairs);
    assert forall|i: int| 0 <= i < parts.len() implies free_of(#[trigger] parts[i], '&')
        && free_of(parts[i], '?') && parsed_pair(mode, parts[i]) == Some(pairs[i]) by {
        lemma_parsed_pair(mode, pairs[i]);
    }
    lemma_split_joined(parts, '&');
    lemma_joined_free_of(parts, '&', '?');
}

/// The text of a path says its segments, and holds no `?`.
pub proof fn lemma_parsed_path(segments: Seq<Seq<char>>)
    ensures
        parsed_path(path_text(segments)) == Some(segments),
        free_of(path_text(segments), '?'),
{
    let parts = path_parts(segments);
    assert forall|i: int| 0 <= i < parts.len() implies free_of(#[trigger] parts[i], '/')
        && free_of(parts[i], '?') by {
        if i > 0 {
            lemma_encoded_free_of(Encoding::Component, segments[i - 1], '/');
            lemma_encoded_free_of(Encoding::Component, segments[i - 1], '?');
        }
    }
    lemma_split_joined(parts, '/');
    lemma_joined_free_of(parts, '/', '?');
    assert forall|i: int| 1 <= i < parts.len() implies decoded_text(
        Encoding::Component,
        #[trigger] parts[i],
    ) == Some(segments[i - 1]) by {
        law_decoded_text(Encoding::Component, segments[i - 1]);
    }
}

/// Whatever the segments and the query values hold, the URL is the origin followed
/// by a target that begins a path or a query, and that target says exactly the
/// segments and pairs that were given: no character of a parameter ends a segment,
/// starts the query or adds a pair.
pub proof fn law_url_structure(
    host: Host,
    segments: Seq<Seq<char>>,
    pairs: Seq<(Seq<char>, Seq<char>)>,
)
    ensures
        url_text(host, segments, pairs) == origin(host) + target_text(segments, pairs),
        target_text(segments, pairs).len() == 0 || target_text(segments, pairs)[0] == '/'
            || target_text(segments, pairs)[0] == '?',
        parsed_target(target_text(segments, pairs)) == Some((Target { segments, pairs })),
{
    let path = path_text(segments);
    let target = target_text(segments, pairs);
    lemma_parsed_path(segments);
    if pairs.len() == 0 {
        lemma_until_prefix(path, Seq::empty(), '?');
        assert(pairs =~= Seq::empty());
    } else {
        let query = pairs_text(Encoding::Component, pairs);
        lemma_parsed_pairs(Encoding::Component, pairs);
        let halves = seq![path, query];
        assert(joined(halves.drop_first(), '?') == query);
        assert(joined(halves, '?') =~= target);
        lemma_split_joined(halves, '?');
    }
}

/// An encoded segment is a dot segment only where the segment itself is `.` or
/// `..`: a segment that holds anything else, a reserved character above all, keeps
/// its place in the path.
pub proof fn law_dot_segments(segment: Seq<char>)
    ensures
        is_dot_segment(encoded_text(Encoding::Component, segment)) <==> (segment == seq!['.']
            || segment == seq!['.', '.']),
{
    let one = seq!['.'];
    let two = seq!['.', '.'];
    law_decoded_encoded(Encoding::Component, vstd::utf8::encode_utf8(segment));
    vstd::utf8::encode_utf8_decode_utf8(segment);
    vstd::utf8::encode_utf8_decode_utf8(one);
    vstd::utf8::encode_utf8_decode_utf8(two);
    vstd::utf8::is_ascii_chars_encode_utf8(one);
    vstd::utf8::is_ascii_chars_encode_utf8(two);
    assert(vstd::utf8::encode_utf8(two) =~= seq![0x2Eu8, 0x2Eu8]);
}

/// A form body of one pair or more says exactly the pairs that were given.
pub proof fn law_form_structure(pairs: Seq<(Seq<char>, Seq<char>)>)
    requires
        pairs.len() > 0,
    ensures
        parsed_pairs(Encoding::Form, form_text(pairs)) == Some(pairs),
{
    lemma_parsed_pairs(Encoding::Form, pairs);
}

} // verus!

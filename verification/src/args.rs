//! Parsing of `key=value,key=value` lists.
//!
//! The same grammar serves the custom-data flag and the header flag: the input
//! is cut at every `,` and each piece is cut at its first `=`. Nothing is
//! trimmed, and an empty input is an error rather than an empty list.

use vstd::prelude::*;
use vstd::string::*;

verus! {

/// Why a `key=value` list was rejected.
#[derive(Debug, PartialEq, Eq)]
pub enum ParseError {
    /// The input was the empty string; `message` is the text the caller asked
    /// to be reported for that case.
    Empty { message: String },
    /// `token` holds no `=`.
    MissingSeparator { token: String },
}

/// The mathematical content of a [`ParseError`].
pub enum ParseFault {
    Empty { message: Seq<char> },
    MissingSeparator { token: Seq<char> },
}

impl View for ParseError {
    type V = ParseFault;

    open spec fn view(&self) -> ParseFault {
        match self {
            ParseError::Empty { message } => ParseFault::Empty { message: message@ },
            ParseError::MissingSeparator { token } => ParseFault::MissingSeparator { token: token@ },
        }
    }
}

impl ParseError {
    /// The text of the human-readable description of this error.
    pub open spec fn message_text(self) -> Seq<char> {
        match self {
            ParseError::Empty { message } => message@,
            ParseError::MissingSeparator { token } => "invalid KEY=value: no `=` found in `"@
                + token@ + "`"@,
        }
    }

    /// A human-readable description of this error.
    pub fn message(&self) -> (text: String)
        ensures
            text@ == self.message_text(),
    {
        match self {
            ParseError::Empty { message } => message.clone(),
            ParseError::MissingSeparator { token } => {
                String::from_str("invalid KEY=value: no `=` found in `").concat(
                    token.as_str(),
                ).concat("`")
            },
        }
    }
}

/// The position of the first `c` in `s`, or `s.len()` when `s` holds none.
pub open spec fn first_position(s: Seq<char>, c: char) -> int
    decreases s.len(),
{
    if s.len() == 0 || s[0] == c {
        0
    } else {
        1 + first_position(s.drop_first(), c)
    }
}

/// The pieces of `s` between occurrences of `c`, in order. There is always at
/// least one piece, and pieces may be empty.
pub open spec fn split_on(s: Seq<char>, c: char) -> Seq<Seq<char>>
    decreases s.len(),
{
    let i = first_position(s, c);
    if 0 <= i < s.len() {
        seq![s.subrange(0, i)] + split_on(s.subrange(i + 1, s.len() as int), c)
    } else {
        seq![s]
    }
}

/// A token cut at its first `=`, or `None` when it holds no `=`.
pub open spec fn key_value(token: Seq<char>) -> Option<(Seq<char>, Seq<char>)> {
    let i = first_position(token, '=');
    if 0 <= i < token.len() {
        Some((token.subrange(0, i), token.subrange(i + 1, token.len() as int)))
    } else {
        None
    }
}

/// The first token that holds no `=` is at index `i`.
pub open spec fn is_first_unseparated(tokens: Seq<Seq<char>>, i: int) -> bool {
    &&& 0 <= i < tokens.len()
    &&& key_value(tokens[i]) is None
    &&& forall|j: int| 0 <= j < i ==> (#[trigger] key_value(tokens[j])) is Some
}

/// What a `key=value` list means: the pairs in order of appearance, or the
/// reason for rejecting the whole input.
pub open spec fn parse_pairs(s: Seq<char>, empty_message: Seq<char>) -> Result<
    Seq<(Seq<char>, Seq<char>)>,
    ParseFault,
> {
    let tokens = split_on(s, ',');
    if s.len() == 0 {
        Err(ParseFault::Empty { message: empty_message })
    } else if exists|i: int| is_first_unseparated(tokens, i) {
        Err(
            ParseFault::MissingSeparator {
                token: tokens[choose|i: int| is_first_unseparated(tokens, i)],
            },
        )
    } else {
        Ok(tokens.map_values(|t: Seq<char>| key_value(t).unwrap()))
    }
}

/// The texts of a list of owned pairs.
pub open spec fn pairs_view(pairs: Seq<(String, String)>) -> Seq<(Seq<char>, Seq<char>)> {
    pairs.map_values(|p: (String, String)| (p.0@, p.1@))
}

/// The mathematical content of a parser result.
pub open spec fn parsed_view(r: Result<Vec<(String, String)>, ParseError>) -> Result<
    Seq<(Seq<char>, Seq<char>)>,
    ParseFault,
> {
    match r {
        Ok(pairs) => Ok(pairs_view(pairs@)),
        Err(e) => Err(e@),
    }
}

/// Cuts `s` at its first `=` into a key and a value. Both may be empty, and
/// the value may hold further `=` signs.
pub fn parse_key_val(s: &str) -> (r: Result<(String, String), ParseError>)
    ensures
        match key_value(s@) {
            Some((key, value)) => r matches Ok(pair) && pair.0@ == key && pair.1@ == value,
            None => r matches Err(ParseError::MissingSeparator { token }) && token@ == s@,
        },
{
    let n = s.unicode_len();
    let mut pos: usize = 0;
    let mut found: Option<usize> = None;
    for c in it: s.chars()
        invariant
            pos == it.index(),
            it.seq() == s@,
            n == s@.len(),
            found matches Some(i) ==> i < pos && s@[i as int] == '=' && forall|j: int|
                0 <= j < i ==> s@[j] != '=',
            found is None ==> forall|j: int| 0 <= j < pos ==> s@[j] != '=',
    {
        if found.is_none() && c == '=' {
            found = Some(pos);
        }
        pos = pos + 1;
    }
    match found {
        Some(i) => {
            proof {
                lemma_first_position_is(s@, '=', i as int);
            }
            let key = s.substring_char(0, i);
            let value = s.substring_char(i + 1, n);
            Ok((key.to_owned(), value.to_owned()))
        },
        None => {
            proof {
                lemma_first_position_is(s@, '=', n as int);
            }
            Err(ParseError::MissingSeparator { token: s.to_owned() })
        },
    }
}

/// Parses a non-empty `key=value,key=value` list into its pairs, in order of
/// appearance. Keys may repeat. An empty `s` is rejected with `error_message`;
/// a token without `=` rejects the whole input and is reported.
pub fn parse_comma_delimited(s: &str, error_message: &str) -> (r: Result<
    Vec<(String, String)>,
    ParseError,
>)
    ensures
        parsed_view(r) == parse_pairs(s@, error_message@),
{
    let n = s.unicode_len();
    if n == 0 {
        return Err(ParseError::Empty { message: error_message.to_owned() });
    }
    let ghost tokens = split_on(s@, ',');
    proof {
        lemma_split_is_not_empty(s@, ',');
        assert(s@.subrange(0, n as int) == s@);
        assert(tokens == tokens.subrange(0, 0) + tokens);
    }
    let mut pairs: Vec<(String, String)> = Vec::new();
    let mut start: usize = 0;
    let mut pos: usize = 0;
    for c in it: s.chars()
        invariant
            pos == it.index(),
            it.seq() == s@,
            n == s@.len(),
            n > 0,
            tokens == split_on(s@, ','),
            start <= pos,
            forall|j: int| start <= j < pos ==> s@[j] != ',',
            pairs.len() < tokens.len(),
            tokens == tokens.subrange(0, pairs.len() as int) + split_on(
                s@.subrange(start as int, n as int),
                ',',
            ),
            forall|k: int|
                0 <= k < pairs.len() ==> key_value(#[trigger] tokens[k]) == Some(
                    (pairs[k].0@, pairs[k].1@),
                ),
    {
        if c == ',' {
            let token = s.substring_char(start, pos);
            proof {
                let tail = s@.subrange(start as int, n as int);
                lemma_split_at_first(tail, ',', pos - start);
                assert(tail.subrange(0, pos - start) == token@);
                assert(tail.subrange(pos - start + 1, tail.len() as int) == s@.subrange(
                    pos + 1,
                    n as int,
                ));
                assert(tokens[pairs.len() as int] == token@);
            }
            match parse_key_val(token) {
                Ok(pair) => {
                    pairs.push(pair);
                    proof {
                        let done = pairs.len() as int;
                        assert(tokens.subrange(0, done) == tokens.subrange(0, done - 1).push(
                            tokens[done - 1],
                        ));
                        assert(tokens == tokens.subrange(0, done) + split_on(
                            s@.subrange(pos + 1, n as int),
                            ',',
                        ));
                    }
                },
                Err(e) => {
                    proof {
                        assert(is_first_unseparated(tokens, pairs.len() as int));
                        lemma_first_unseparated_unique(
                            tokens,
                            pairs.len() as int,
                            choose|i: int| is_first_unseparated(tokens, i),
                        );
                    }
                    return Err(e);
                },
            }
            start = pos + 1;
        }
        pos = pos + 1;
    }
    let token = s.substring_char(start, n);
    proof {
        lemma_split_without_delimiter(token@, ',');
        assert(tokens[pairs.len() as int] == token@);
        assert(tokens.len() == pairs.len() + 1);
    }
    match parse_key_val(token) {
        Ok(pair) => {
            pairs.push(pair);
            proof {
                assert forall|i: int| !is_first_unseparated(tokens, i) by {}
                assert(pairs_view(pairs@) =~= tokens.map_values(
                    |t: Seq<char>| key_value(t).unwrap(),
                ));
            }
            Ok(pairs)
        },
        Err(e) => {
            proof {
                assert(is_first_unseparated(tokens, pairs.len() as int));
                lemma_first_unseparated_unique(
                    tokens,
                    pairs.len() as int,
                    choose|i: int| is_first_unseparated(tokens, i),
                );
            }
            Err(e)
        },
    }
}

/// The pieces of a list put together again, with `c` between them.
pub open spec fn join(pieces: Seq<Seq<char>>, c: char) -> Seq<char>
    decreases pieces.len(),
{
    if pieces.len() == 0 {
        Seq::empty()
    } else if pieces.len() == 1 {
        pieces[0]
    } else {
        pieces[0] + seq![c] + join(pieces.drop_first(), c)
    }
}

/// Splitting loses nothing and cuts at every delimiter: no piece holds the
/// delimiter, and the pieces joined by it are the text that was split.
pub proof fn lemma_split_then_join(s: Seq<char>, c: char)
    ensures
        forall|i: int| 0 <= i < split_on(s, c).len() ==> !(#[trigger] split_on(s, c)[i]).contains(c),
        join(split_on(s, c), c) == s,
    decreases s.len(),
{
    lemma_first_position(s, c);
    let i = first_position(s, c);
    if 0 <= i < s.len() {
        let head = s.subrange(0, i);
        let rest = s.subrange(i + 1, s.len() as int);
        lemma_split_then_join(rest, c);
        lemma_split_is_not_empty(rest, c);
        let pieces = split_on(s, c);
        assert(pieces == seq![head] + split_on(rest, c));
        assert(pieces.drop_first() =~= split_on(rest, c));
        assert(join(pieces, c) =~= s);
        assert forall|k: int| 0 <= k < pieces.len() implies !(#[trigger] pieces[k]).contains(c) by {
            if k == 0 {
                assert forall|j: int| 0 <= j < head.len() implies head[j] != c by {
                    assert(head[j] == s[j]);
                }
            } else {
                assert(pieces[k] == split_on(rest, c)[k - 1]);
            }
        }
    } else {
        assert forall|j: int| 0 <= j < s.len() implies s[j] != c by {}
    }
}

/// A token with a separator is its key, an `=` and its value, and the key
/// holds no `=`.
pub proof fn lemma_key_value_rejoins(token: Seq<char>)
    requires
        key_value(token) is Some,
    ensures
        key_value(token) matches Some((key, value)) && key + seq!['='] + value == token
            && !key.contains('='),
{
    lemma_first_position(token, '=');
    let i = first_position(token, '=');
    let key = token.subrange(0, i);
    assert(key + seq!['='] + token.subrange(i + 1, token.len() as int) =~= token);
    assert forall|j: int| 0 <= j < key.len() implies key[j] != '=' by {
        assert(key[j] == token[j]);
    }
}

/// A non-empty input that holds no `=` anywhere is always rejected for a
/// missing separator, and the token reported is its first piece.
pub proof fn lemma_input_without_separator_is_rejected(s: Seq<char>, empty_message: Seq<char>)
    requires
        s.len() > 0,
        !s.contains('='),
    ensures
        parse_pairs(s, empty_message) == Err::<Seq<(Seq<char>, Seq<char>)>, ParseFault>(
            ParseFault::MissingSeparator { token: split_on(s, ',')[0] },
        ),
{
    let tokens = split_on(s, ',');
    let head = tokens[0];
    lemma_first_position(s, ',');
    assert forall|j: int| 0 <= j < head.len() implies head[j] != '=' by {
        assert(s.contains(head[j]));
    }
    lemma_first_position_is(head, '=', head.len() as int);
    assert(is_first_unseparated(tokens, 0));
    lemma_first_unseparated_unique(tokens, 0, choose|i: int| is_first_unseparated(tokens, i));
}

/// `first_position` lies within `0..=s.len()`, points at a `c` when it lies
/// inside `s`, and nothing before it is a `c`.
pub proof fn lemma_first_position(s: Seq<char>, c: char)
    ensures
        0 <= first_position(s, c) <= s.len(),
        first_position(s, c) < s.len() ==> s[first_position(s, c)] == c,
        forall|j: int| 0 <= j < first_position(s, c) ==> s[j] != c,
    decreases s.len(),
{
    if s.len() == 0 || s[0] == c {
    } else {
        let rest = s.drop_first();
        lemma_first_position(rest, c);
        assert forall|j: int| 0 <= j < first_position(s, c) implies s[j] != c by {
            if j > 0 {
                assert(rest[j - 1] == s[j]);
            }
        }
    }
}

/// A position with no `c` before it, which is the end of `s` or holds a `c`,
/// is the first position of `c`.
proof fn lemma_first_position_is(s: Seq<char>, c: char, i: int)
    requires
        0 <= i <= s.len(),
        forall|j: int| 0 <= j < i ==> s[j] != c,
        i < s.len() ==> s[i] == c,
    ensures
        first_position(s, c) == i,
{
    lemma_first_position(s, c);
}

/// Cutting at a known first delimiter: the head is the text before it, and the
/// rest is the split of what follows it.
proof fn lemma_split_at_first(s: Seq<char>, c: char, i: int)
    requires
        0 <= i < s.len(),
        s[i] == c,
        forall|j: int| 0 <= j < i ==> s[j] != c,
    ensures
        split_on(s, c) == seq![s.subrange(0, i)] + split_on(s.subrange(i + 1, s.len() as int), c),
{
    lemma_first_position_is(s, c, i);
}

/// Every text splits into at least one piece.
proof fn lemma_split_is_not_empty(s: Seq<char>, c: char)
    ensures
        split_on(s, c).len() >= 1,
{
}

/// A text without the delimiter is its own single piece.
proof fn lemma_split_without_delimiter(s: Seq<char>, c: char)
    requires
        forall|j: int| 0 <= j < s.len() ==> s[j] != c,
    ensures
        split_on(s, c) == seq![s],
{
    lemma_first_position_is(s, c, s.len() as int);
}

/// At most one index is the first token without `=`.
proof fn lemma_first_unseparated_unique(tokens: Seq<Seq<char>>, i: int, j: int)
    requires
        is_first_unseparated(tokens, i),
        is_first_unseparated(tokens, j),
    ensures
        i == j,
{
    if i < j {
        assert(key_value(tokens[i]) is Some);
    } else if j < i {
        assert(key_value(tokens[j]) is Some);
    }
}

} // verus!

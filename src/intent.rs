use vstd::prelude::*;
use vstd::string::*;

use crate::error::{ArgError, ArgErrorModel};
use crate::kv::{is_pair_token, parse_kv_pair, splits_as, KvPair};
use crate::url::{is_absolute_url_with_host, parse_url};

verus! {

/// The HTTP method of a request.
#[derive(Debug, Clone, Copy, PartialEq, Eq, Structural)]
pub enum Verb {
    Get,
    Post,
}

/// A validated request: what HTTP call to make.
#[derive(Debug)]
pub struct RequestIntent {
    pub verb: Verb,
    pub url: String,
    pub body: Vec<KvPair>,
}

/// The first of the tokens that is not a `key=value` pair, if any.
pub open spec fn first_bad_token(tokens: Seq<String>) -> Option<Seq<char>>
    decreases tokens.len(),
{
    if tokens.len() == 0 {
        None
    } else if !is_pair_token(tokens[0]@) {
        Some(tokens[0]@)
    } else {
        first_bad_token(tokens.drop_first())
    }
}

/// The first error that the parts of a request give, if any: body tokens on
/// a GET, then the URL, then the first token that is not a pair.
pub open spec fn intent_error(verb: Verb, url: Seq<char>, tokens: Seq<String>) -> Option<ArgErrorModel> {
    if verb == Verb::Get && tokens.len() > 0 {
        Some(ArgErrorModel::Usage)
    } else if !is_absolute_url_with_host(url) {
        Some(ArgErrorModel::Url(url))
    } else {
        match first_bad_token(tokens) {
            Some(t) => Some(ArgErrorModel::Pair(t)),
            None => None,
        }
    }
}

/// `r` is the request made of these parts, its body split from the tokens.
pub open spec fn is_intent_of(r: RequestIntent, verb: Verb, url: Seq<char>, tokens: Seq<String>) -> bool {
    &&& r.verb == verb
    &&& r.url@ == url
    &&& r.body@.len() == tokens.len()
    &&& forall|i: int| 0 <= i < tokens.len() ==> splits_as(#[trigger] tokens[i]@, r.body@[i].k@, r.body@[i].v@)
}

/// The word `get`.
pub open spec fn get_word() -> Seq<char> {
    seq!['g', 'e', 't']
}

/// The word `post`.
pub open spec fn post_word() -> Seq<char> {
    seq!['p', 'o', 's', 't']
}

/// A word that reads as an option flag: a `-` followed by something.
pub open spec fn is_flag(w: Seq<char>) -> bool {
    w.len() >= 2 && w[0] == '-'
}

/// The subcommand that a known first word names.
pub open spec fn verb_of(w: Seq<char>) -> Verb {
    if w == get_word() { Verb::Get } else { Verb::Post }
}

/// The command line has the shape `get <url>` or `post <url> [pair...]`,
/// with no flags.
pub open spec fn usage_ok(ws: Seq<String>) -> bool {
    &&& ws.len() >= 2
    &&& (ws[0]@ == get_word() && ws.len() == 2) || ws[0]@ == post_word()
    &&& forall|i: int| 0 <= i < ws.len() ==> !is_flag(#[trigger] ws[i]@)
}

/// The first error that a command line gives, if any.
pub open spec fn arguments_error(ws: Seq<String>) -> Option<ArgErrorModel> {
    if !usage_ok(ws) {
        Some(ArgErrorModel::Usage)
    } else {
        intent_error(verb_of(ws[0]@), ws[1]@, ws.skip(2))
    }
}

impl RequestIntent {
    /// Builds a request from a verb, a URL and the body tokens, checking the
    /// URL and splitting each token as a `key=value` pair.
    pub fn from_parts(verb: Verb, url: &str, tokens: &Vec<String>) -> (r: Result<RequestIntent, ArgError>)
        ensures
            r is Err <==> intent_error(verb, url@, tokens@) is Some,
            r is Err ==> r->Err_0@ == intent_error(verb, url@, tokens@)->Some_0,
            r is Ok ==> is_intent_of(r->Ok_0, verb, url@, tokens@),
    {
        if verb == Verb::Get && tokens.len() > 0 {
            return Err(ArgError::UsageError);
        }
        let checked = match parse_url(url) {
            Ok(u) => u,
            Err(e) => return Err(e),
        };
        let mut body: Vec<KvPair> = Vec::new();
        let mut i: usize = 0;
        assert(tokens@.skip(0) =~= tokens@);
        while i < tokens.len()
            invariant
                first_bad_token(tokens@) == first_bad_token(tokens@.skip(i as int)),
                i <= tokens.len(),
                body@.len() == i,
                is_absolute_url_with_host(url@),
                checked@ == url@,
                !(verb == Verb::Get && tokens.len() > 0),
                forall|j: int| 0 <= j < i ==> is_pair_token(#[trigger] tokens@[j]@),
                forall|j: int| 0 <= j < i ==> splits_as(#[trigger] tokens@[j]@, body@[j].k@, body@[j].v@),
            decreases tokens.len() - i,
        {
            assert(tokens@.skip(i as int).drop_first() =~= tokens@.skip(i + 1));
            match parse_kv_pair(tokens[i].as_str()) {
                Ok(p) => body.push(p),
                Err(e) => {
                    return Err(e);
                },
            }
            i = i + 1;
        }
        assert(tokens@.skip(tokens.len() as int).len() == 0);
        Ok(RequestIntent { verb, url: checked, body })
    }
}

/// Whether `w` reads as an option flag.
fn word_is_flag(w: &String) -> (r: bool)
    ensures
        r == is_flag(w@),
{
    let s = w.as_str();
    s.unicode_len() >= 2 && s.get_char(0) == '-'
}

/// Parses the words of a command line (without the program name) into a
/// request: `get <url>` or `post <url> [key=value ...]`.
///
/// A wrong shape, an unknown subcommand or a flag gives `UsageError`; then an
/// invalid URL gives `InvalidUrl`, and a token that is not a pair gives
/// `InvalidKeyValuePair`.
pub fn parse_arguments(words: &Vec<String>) -> (r: Result<RequestIntent, ArgError>)
    ensures
        r is Err <==> arguments_error(words@) is Some,
        r is Err ==> r->Err_0@ == arguments_error(words@)->Some_0,
        r is Ok ==> is_intent_of(r->Ok_0, verb_of(words@[0]@), words@[1]@, words@.skip(2)),
{
    let mut i: usize = 0;
    while i < words.len()
        invariant
            i <= words.len(),
            forall|j: int| 0 <= j < i ==> !is_flag(#[trigger] words@[j]@),
        decreases words.len() - i,
    {
        if word_is_flag(&words[i]) {
            return Err(ArgError::UsageError);
        }
        i = i + 1;
    }
    if words.len() < 2 {
        return Err(ArgError::UsageError);
    }
    let get = String::from_str("get");
    let post = String::from_str("post");
    proof {
        reveal_strlit("get");
        reveal_strlit("post");
        assert(get@ =~= get_word());
        assert(post@ =~= post_word());
    }
    let verb = if words[0] == get {
        Verb::Get
    } else if words[0] == post {
        Verb::Post
    } else {
        return Err(ArgError::UsageError);
    };
    if verb == Verb::Get && words.len() != 2 {
        return Err(ArgError::UsageError);
    }
    let mut tokens: Vec<String> = Vec::new();
    let mut j: usize = 2;
    while j < words.len()
        invariant
            2 <= j <= words.len(),
            tokens@ =~= words@.subrange(2, j as int),
        decreases words.len() - j,
    {
        tokens.push(words[j].clone());
        j = j + 1;
    }
    assert(tokens@ =~= words@.skip(2));
    RequestIntent::from_parts(verb, words[1].as_str(), &tokens)
}

} // verus!

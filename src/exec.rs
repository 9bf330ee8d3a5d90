use vstd::prelude::*;

use crate::entry::{opt_str_view, opt_string_view, DesktopEntry};
use crate::error::{ExecError, ExecErrorView};

verus! {

/// The characters that `str::split_ascii_whitespace` splits on.
pub open spec fn is_blank(c: char) -> bool {
    c == ' ' || c == '\t' || c == '\n' || c == '\x0C' || c == '\r'
}

fn is_blank_char(c: char) -> (r: bool)
    ensures
        r == is_blank(c),
{
    c == ' ' || c == '\t' || c == '\n' || c == '\x0C' || c == '\r'
}

/// Reading `s` left to right: the words already closed, and the word in progress.
pub open spec fn scan_words(s: Seq<char>) -> (Seq<Seq<char>>, Seq<char>)
    decreases s.len(),
{
    if s.len() == 0 {
        (seq![], seq![])
    } else {
        let (done, cur) = scan_words(s.drop_last());
        let c = s.last();
        if !is_blank(c) {
            (done, cur.push(c))
        } else if cur.len() > 0 {
            (done.push(cur), seq![])
        } else {
            (done, seq![])
        }
    }
}

/// The maximal runs of non-blank characters of `s`, in order.
pub open spec fn words(s: Seq<char>) -> Seq<Seq<char>> {
    let (done, cur) = scan_words(s);
    if cur.len() > 0 {
        done.push(cur)
    } else {
        done
    }
}

pub open spec fn strings_view(v: Seq<String>) -> Seq<Seq<char>> {
    v.map_values(|t: String| t@)
}

pub proof fn lemma_strings_view_push(v: Seq<String>, t: String)
    ensures
        strings_view(v.push(t)) == strings_view(v).push(t@),
{
    assert(strings_view(v.push(t)) =~= strings_view(v).push(t@));
}

/// Splits `s` into its words, as `split_ascii_whitespace` does.
pub fn split_words(s: &str) -> (r: Vec<String>)
    ensures
        strings_view(r@) == words(s@),
{
    let n = s.unicode_len();
    let mut out: Vec<String> = Vec::new();
    let mut start: usize = 0;
    let mut i: usize = 0;
    while i < n
        invariant
            n == s@.len(),
            start <= i <= n,
            scan_words(s@.take(i as int)) == (strings_view(out@), s@.subrange(start as int, i as int)),
        decreases n - i,
    {
        let c = s.get_char(i);
        proof {
            assert(s@.take(i + 1).drop_last() =~= s@.take(i as int));
            assert(s@.take(i + 1).last() == c);
        }
        if is_blank_char(c) {
            if start < i {
                let w = String::from_str(s.substring_char(start, i));
                proof {
                    lemma_strings_view_push(out@, w);
                }
                out.push(w);
            }
            start = i + 1;
            proof {
                assert(s@.subrange(start as int, start as int) =~= seq![]);
            }
        } else {
            proof {
                assert(s@.subrange(start as int, i as int).push(c) =~= s@.subrange(
                    start as int,
                    i + 1,
                ));
            }
        }
        i = i + 1;
    }
    proof {
        assert(s@.take(n as int) =~= s@);
    }
    if start < n {
        let w = String::from_str(s.substring_char(start, n));
        proof {
            lemma_strings_view_push(out@, w);
        }
        out.push(w);
    }
    out
}


/// One word of an exec string: a literal argument or a field code.
#[derive(Debug, PartialEq, Eq)]
pub enum ArgOrFieldCode {
    SingleFileName,
    FileList,
    SingleUrl,
    UrlList,
    IconKey,
    TranslatedName,
    DesktopFileLocation,
    Arg(String),
}

/// The mathematical value of an [`ArgOrFieldCode`].
pub enum FieldToken {
    SingleFileName,
    FileList,
    SingleUrl,
    UrlList,
    IconKey,
    TranslatedName,
    DesktopFileLocation,
    Arg(Seq<char>),
}

impl View for ArgOrFieldCode {
    type V = FieldToken;

    open spec fn view(&self) -> FieldToken {
        match self {
            ArgOrFieldCode::SingleFileName => FieldToken::SingleFileName,
            ArgOrFieldCode::FileList => FieldToken::FileList,
            ArgOrFieldCode::SingleUrl => FieldToken::SingleUrl,
            ArgOrFieldCode::UrlList => FieldToken::UrlList,
            ArgOrFieldCode::IconKey => FieldToken::IconKey,
            ArgOrFieldCode::TranslatedName => FieldToken::TranslatedName,
            ArgOrFieldCode::DesktopFileLocation => FieldToken::DesktopFileLocation,
            ArgOrFieldCode::Arg(a) => FieldToken::Arg(a@),
        }
    }
}

/// Field codes that the desktop-entry format has deprecated: `d D n N v m`.
pub open spec fn is_deprecated_code(c: char) -> bool {
    c == 'd' || c == 'D' || c == 'n' || c == 'N' || c == 'v' || c == 'm'
}

/// What one word of an exec string stands for.
pub open spec fn classify_word(w: Seq<char>) -> Result<FieldToken, ExecErrorView> {
    if w.len() > 0 && w[0] == '%' {
        if w.len() == 2 && w[1] == 'f' {
            Ok(FieldToken::SingleFileName)
        } else if w.len() == 2 && w[1] == 'F' {
            Ok(FieldToken::FileList)
        } else if w.len() == 2 && w[1] == 'u' {
            Ok(FieldToken::SingleUrl)
        } else if w.len() == 2 && w[1] == 'U' {
            Ok(FieldToken::UrlList)
        } else if w.len() == 2 && w[1] == 'i' {
            Ok(FieldToken::IconKey)
        } else if w.len() == 2 && w[1] == 'c' {
            Ok(FieldToken::TranslatedName)
        } else if w.len() == 2 && w[1] == 'k' {
            Ok(FieldToken::DesktopFileLocation)
        } else if w.len() == 2 && is_deprecated_code(w[1]) {
            Err(ExecErrorView::DeprecatedFieldCode(w))
        } else {
            Err(ExecErrorView::UnknownFieldCode(w))
        }
    } else {
        Ok(FieldToken::Arg(w))
    }
}

pub open spec fn result_view<T: View>(r: Result<T, ExecError>) -> Result<T::V, ExecErrorView> {
    match r {
        Ok(v) => Ok(v@),
        Err(e) => Err(e@),
    }
}

impl ArgOrFieldCode {
    /// Classifies one word of an exec string.
    pub fn try_from(value: &str) -> (r: Result<ArgOrFieldCode, ExecError>)
        ensures
            result_view(r) == classify_word(value@),
    {
        let n = value.unicode_len();
        if n > 0 && value.get_char(0) == '%' {
            if n == 2 {
                let c = value.get_char(1);
                if c == 'f' {
                    return Ok(ArgOrFieldCode::SingleFileName);
                } else if c == 'F' {
                    return Ok(ArgOrFieldCode::FileList);
                } else if c == 'u' {
                    return Ok(ArgOrFieldCode::SingleUrl);
                } else if c == 'U' {
                    return Ok(ArgOrFieldCode::UrlList);
                } else if c == 'i' {
                    return Ok(ArgOrFieldCode::IconKey);
                } else if c == 'c' {
                    return Ok(ArgOrFieldCode::TranslatedName);
                } else if c == 'k' {
                    return Ok(ArgOrFieldCode::DesktopFileLocation);
                } else if c == 'd' || c == 'D' || c == 'n' || c == 'N' || c == 'v' || c == 'm' {
                    return Err(ExecError::DeprecatedFieldCode(String::from_str(value)));
                }
            }
            Err(ExecError::UnknownFieldCode(String::from_str(value)))
        } else {
            Ok(ArgOrFieldCode::Arg(String::from_str(value)))
        }
    }
}

/// Classifies every word in order; the first word that fails decides the error.
pub open spec fn classify_words(ws: Seq<Seq<char>>) -> Result<Seq<FieldToken>, ExecErrorView>
    decreases ws.len(),
{
    if ws.len() == 0 {
        Ok(seq![])
    } else {
        match classify_words(ws.drop_last()) {
            Err(e) => Err(e),
            Ok(done) => match classify_word(ws.last()) {
                Err(e) => Err(e),
                Ok(t) => Ok(done.push(t)),
            },
        }
    }
}

pub open spec fn tokens_view(v: Seq<ArgOrFieldCode>) -> Seq<FieldToken> {
    v.map_values(|t: ArgOrFieldCode| t@)
}

/// Strips one pair of double quotes that wraps the whole string.
pub open spec fn unquote(s: Seq<char>) -> Result<Seq<char>, ExecErrorView> {
    if s.len() > 0 && s[0] == '"' {
        if s.len() >= 2 && s.last() == '"' {
            Ok(s.subrange(1, s.len() - 1))
        } else {
            Err(ExecErrorView::UnmatchedQuote { command: s })
        }
    } else {
        Ok(s)
    }
}

/// The field tokens of an exec string, or why it has none.
pub open spec fn parse_exec(s: Seq<char>) -> Result<Seq<FieldToken>, ExecErrorView> {
    match unquote(s) {
        Err(e) => Err(e),
        Ok(inner) => classify_words(words(inner)),
    }
}

/// Removes the quotes that wrap the whole exec string, if it is wrapped.
pub fn strip_quotes(s: &str) -> (r: Result<&str, ExecError>)
    ensures
        match r {
            Ok(t) => unquote(s@) == Ok::<Seq<char>, ExecErrorView>(t@),
            Err(e) => unquote(s@) == Err::<Seq<char>, ExecErrorView>(e@),
        },
{
    let n = s.unicode_len();
    if n > 0 && s.get_char(0) == '"' {
        if n >= 2 && s.get_char(n - 1) == '"' {
            Ok(s.substring_char(1, n - 1))
        } else {
            Err(ExecError::UnmatchedQuote { command: String::from_str(s) })
        }
    } else {
        Ok(s)
    }
}

/// Splits an exec string into words and classifies each, in order.
pub fn parse_exec_string(s: &str) -> (r: Result<Vec<ArgOrFieldCode>, ExecError>)
    ensures
        match r {
            Ok(v) => parse_exec(s@) == Ok::<Seq<FieldToken>, ExecErrorView>(tokens_view(v@)),
            Err(e) => parse_exec(s@) == Err::<Seq<FieldToken>, ExecErrorView>(e@),
        },
{
    let inner = match strip_quotes(s) {
        Ok(t) => t,
        Err(e) => return Err(e),
    };
    let ws = split_words(inner);
    let ghost wv = strings_view(ws@);
    let mut out: Vec<ArgOrFieldCode> = Vec::new();
    let mut i: usize = 0;
    proof {
        assert(wv.take(0) =~= seq![]);
        assert(tokens_view(out@) =~= seq![]);
    }
    while i < ws.len()
        invariant
            i <= ws@.len(),
            wv == strings_view(ws@),
            wv == words(inner@),
            unquote(s@) == Ok::<Seq<char>, ExecErrorView>(inner@),
            classify_words(wv.take(i as int)) == Ok::<Seq<FieldToken>, ExecErrorView>(
                tokens_view(out@),
            ),
        decreases ws@.len() - i,
    {
        proof {
            assert(wv.take(i + 1).drop_last() =~= wv.take(i as int));
            assert(wv.take(i + 1).last() == ws@[i as int]@);
        }
        match ArgOrFieldCode::try_from(ws[i].as_str()) {
            Ok(t) => {
                proof {
                    assert(tokens_view(out@.push(t)) =~= tokens_view(out@).push(t@));
                }
                out.push(t);
            },
            Err(e) => {
                proof {
                    lemma_classify_words_err_extends(wv, i as int + 1);
                }
                return Err(e);
            },
        }
        i = i + 1;
    }
    proof {
        assert(wv.take(i as int) =~= wv);
    }
    Ok(out)
}

/// Once a prefix of the words fails, every longer prefix fails the same way.
proof fn lemma_classify_words_err_extends(ws: Seq<Seq<char>>, k: int)
    requires
        0 <= k <= ws.len(),
        classify_words(ws.take(k)) is Err,
    ensures
        classify_words(ws) == classify_words(ws.take(k)),
    decreases ws.len() - k,
{
    if k < ws.len() {
        assert(ws.take(k + 1).drop_last() =~= ws.take(k));
        lemma_classify_words_err_extends(ws, k + 1);
    } else {
        assert(ws.take(k) =~= ws);
    }
}

/// The characters of each URI, in order.
pub open spec fn uris_view(u: Seq<&str>) -> Seq<Seq<char>> {
    u.map_values(|x: &str| x@)
}

/// The words of `ws` joined by single spaces.
pub open spec fn join_spaced(ws: Seq<Seq<char>>) -> Seq<char>
    decreases ws.len(),
{
    if ws.len() == 0 {
        seq![]
    } else if ws.len() == 1 {
        ws[0]
    } else {
        join_spaced(ws.drop_last()) + seq![' '] + ws.last()
    }
}

/// What one token becomes, or `None` where it is dropped.
pub open spec fn substitute_token(
    t: FieldToken,
    uris: Seq<Seq<char>>,
    icon: Option<Seq<char>>,
    name: Option<Seq<char>>,
    path: Seq<char>,
) -> Option<Seq<char>> {
    match t {
        FieldToken::SingleFileName | FieldToken::SingleUrl => if uris.len() > 0 {
            Some(uris[0])
        } else {
            None
        },
        FieldToken::FileList | FieldToken::UrlList => if uris.len() > 0 {
            Some(join_spaced(uris))
        } else {
            None
        },
        FieldToken::IconKey => icon,
        FieldToken::TranslatedName => name,
        FieldToken::DesktopFileLocation => Some(path),
        FieldToken::Arg(a) => Some(a),
    }
}

/// The arguments that the tokens become, in order, the dropped ones left out.
pub open spec fn substitute(
    ts: Seq<FieldToken>,
    uris: Seq<Seq<char>>,
    icon: Option<Seq<char>>,
    name: Option<Seq<char>>,
    path: Seq<char>,
) -> Seq<Seq<char>>
    decreases ts.len(),
{
    if ts.len() == 0 {
        seq![]
    } else {
        let done = substitute(ts.drop_last(), uris, icon, name, path);
        match substitute_token(ts.last(), uris, icon, name, path) {
            Some(a) => done.push(a),
            None => done,
        }
    }
}

/// The locale part of a `LANG` value: what precedes the first `.`, or all of it.
pub open spec fn locale_of(lang: Seq<char>) -> Seq<char> {
    if exists|i: int| 0 <= i < lang.len() && lang[i] == '.' {
        let i = choose|i: int|
            0 <= i < lang.len() && lang[i] == '.' && forall|j: int| 0 <= j < i ==> lang[j] != '.';
        lang.take(i)
    } else {
        lang
    }
}

/// The locale part of a `LANG` value, without its encoding suffix.
pub fn locale_from_lang(lang: &str) -> (r: &str)
    ensures
        r@ == locale_of(lang@),
{
    let n = lang.unicode_len();
    let mut i: usize = 0;
    while i < n
        invariant
            n == lang@.len(),
            i <= n,
            forall|j: int| 0 <= j < i ==> lang@[j] != '.',
        decreases n - i,
    {
        if lang.get_char(i) == '.' {
            proof {
                let k = choose|k: int|
                    0 <= k < lang@.len() && lang@[k] == '.' && forall|j: int|
                        0 <= j < k ==> lang@[j] != '.';
                assert(k == i) by {
                    if k < i {
                    } else if k > i {
                        assert(lang@[i as int] == '.');
                    }
                };
            }
            return lang.substring_char(0, i);
        }
        i = i + 1;
    }
    proof {
        assert(lang@.subrange(0, n as int) =~= lang@);
    }
    lang.substring_char(0, n)
}

/// The URIs joined by single spaces.
pub fn join_uris(uris: &[&str]) -> (r: String)
    ensures
        r@ == join_spaced(uris_view(uris@)),
{
    let mut out = String::new();
    let mut i: usize = 0;
    proof {
        reveal_strlit(" ");
    }
    while i < uris.len()
        invariant
            i <= uris@.len(),
            out@ == join_spaced(uris_view(uris@).take(i as int)),
            " "@ == seq![' '],
        decreases uris@.len() - i,
    {
        proof {
            let t = uris_view(uris@).take(i + 1);
            assert(t.drop_last() =~= uris_view(uris@).take(i as int));
            assert(t.last() == uris@[i as int]@);
            if i == 0 {
                assert(out@ =~= seq![]);
            }
        }
        if i > 0 {
            out.append(" ");
        }
        out.append(uris[i]);
        proof {
            if i == 0 {
                assert(out@ =~= uris_view(uris@).take(1)[0]);
            }
        }
        i = i + 1;
    }
    proof {
        assert(uris_view(uris@).take(i as int) =~= uris_view(uris@));
    }
    out
}

impl DesktopEntry {
    /// The translated name that `%c` becomes under `locale`.
    pub open spec fn translated_name(&self, locale: Option<Seq<char>>) -> Option<Seq<char>> {
        match locale {
            Some(l) => self.spec_name(Some(l)),
            None => None,
        }
    }

    /// Replaces the field codes by their values; codes without a value are dropped.
    pub fn get_args(&self, uris: &[&str], exec_args: &Vec<ArgOrFieldCode>, locale: Option<&str>) -> (r:
        Vec<String>)
        ensures
            strings_view(r@) == substitute(
                tokens_view(exec_args@),
                uris_view(uris@),
                opt_string_view(self.icon),
                self.translated_name(opt_str_view(locale)),
                self.path@,
            ),
    {
        let ghost us = uris_view(uris@);
        let ghost icon = opt_string_view(self.icon);
        let ghost name = self.translated_name(opt_str_view(locale));
        let ghost ts = tokens_view(exec_args@);
        let mut out: Vec<String> = Vec::new();
        let mut i: usize = 0;
        proof {
            assert(ts.take(0) =~= seq![]);
            assert(strings_view(out@) =~= seq![]);
        }
        while i < exec_args.len()
            invariant
                i <= exec_args@.len(),
                ts == tokens_view(exec_args@),
                us == uris_view(uris@),
                icon == opt_string_view(self.icon),
                name == self.translated_name(opt_str_view(locale)),
                strings_view(out@) == substitute(ts.take(i as int), us, icon, name, self.path@),
            decreases exec_args@.len() - i,
        {
            proof {
                assert(ts.take(i + 1).drop_last() =~= ts.take(i as int));
                assert(ts.take(i + 1).last() == exec_args@[i as int]@);
            }
            let value: Option<String> = match &exec_args[i] {
                ArgOrFieldCode::SingleFileName | ArgOrFieldCode::SingleUrl => {
                    if uris.len() > 0 {
                        Some(String::from_str(uris[0]))
                    } else {
                        None
                    }
                },
                ArgOrFieldCode::FileList | ArgOrFieldCode::UrlList => {
                    if uris.len() > 0 {
                        Some(join_uris(uris))
                    } else {
                        None
                    }
                },
                ArgOrFieldCode::IconKey => match self.icon() {
                    Some(s) => Some(String::from_str(s)),
                    None => None,
                },
                ArgOrFieldCode::TranslatedName => match locale {
                    Some(l) => match self.name(Some(l)) {
                        Some(s) => Some(String::from_str(s)),
                        None => None,
                    },
                    None => None,
                },
                ArgOrFieldCode::DesktopFileLocation => Some(String::from_str(self.path.as_str())),
                ArgOrFieldCode::Arg(a) => Some(String::from_str(a.as_str())),
            };
            match value {
                Some(v) => {
                    proof {
                        lemma_strings_view_push(out@, v);
                    }
                    out.push(v);
                },
                None => {},
            }
            i = i + 1;
        }
        proof {
            assert(ts.take(i as int) =~= ts);
        }
        out
    }
}

} // verus!

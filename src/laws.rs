use vstd::prelude::*;

use crate::entry::{opt_string_view, DesktopEntry};
use crate::error::ExecErrorView;
use crate::exec::{
    classify_word, classify_words, is_deprecated_code, join_spaced, locale_of, parse_exec,
    substitute, substitute_token, unquote, words,
    FieldToken,
};
use crate::gpu::gpu_env;
use crate::launch::{LaunchEnv, PlanView};
use crate::terminal::KONSOLE;

verus! {

/// Whether `w` is a word that no field code begins: it does not start with `%`.
pub open spec fn is_literal_word(w: Seq<char>) -> bool {
    !(w.len() > 0 && w[0] == '%')
}

/// Words that do not start with `%` are classified as themselves, as literal
/// arguments, in their original order.
pub proof fn lemma_literal_words_pass_through(ws: Seq<Seq<char>>)
    requires
        forall|i: int| 0 <= i < ws.len() ==> is_literal_word(#[trigger] ws[i]),
    ensures
        classify_words(ws) == Ok::<Seq<FieldToken>, ExecErrorView>(
            ws.map_values(|w: Seq<char>| FieldToken::Arg(w)),
        ),
    decreases ws.len(),
{
    if ws.len() > 0 {
        let init = ws.drop_last();
        assert forall|i: int| 0 <= i < init.len() implies is_literal_word(#[trigger] init[i]) by {
            assert(init[i] == ws[i]);
        };
        lemma_literal_words_pass_through(init);
        assert(is_literal_word(ws[ws.len() - 1]));
        assert(ws.map_values(|w: Seq<char>| FieldToken::Arg(w)) =~= init.map_values(
            |w: Seq<char>| FieldToken::Arg(w),
        ).push(FieldToken::Arg(ws.last())));
    } else {
        assert(ws.map_values(|w: Seq<char>| FieldToken::Arg(w)) =~= seq![]);
    }
}

/// Each deprecated field code `%d %D %n %N %v %m` is refused with an error that
/// carries the code itself.
pub proof fn lemma_deprecated_codes_rejected(c: char)
    requires
        is_deprecated_code(c),
    ensures
        classify_word(seq!['%', c]) == Err::<FieldToken, ExecErrorView>(
            ExecErrorView::DeprecatedFieldCode(seq!['%', c]),
        ),
{
}

/// Whether `c` names a field code that is substituted: `f F u U i c k`.
pub open spec fn is_known_code(c: char) -> bool {
    c == 'f' || c == 'F' || c == 'u' || c == 'U' || c == 'i' || c == 'c' || c == 'k'
}

/// A word that starts with `%` and is neither a known nor a deprecated field code is
/// refused as unknown, with an error that carries the word.
pub proof fn lemma_unknown_codes_rejected(w: Seq<char>)
    requires
        w.len() > 0,
        w[0] == '%',
        !(w.len() == 2 && (is_known_code(w[1]) || is_deprecated_code(w[1]))),
    ensures
        classify_word(w) == Err::<FieldToken, ExecErrorView>(ExecErrorView::UnknownFieldCode(w)),
{
}

/// Substitution works token by token: that of a concatenation is the concatenation of
/// the substitutions.
pub proof fn lemma_substitute_concat(
    a: Seq<FieldToken>,
    b: Seq<FieldToken>,
    uris: Seq<Seq<char>>,
    icon: Option<Seq<char>>,
    name: Option<Seq<char>>,
    path: Seq<char>,
)
    ensures
        substitute(a + b, uris, icon, name, path) == substitute(a, uris, icon, name, path)
            + substitute(b, uris, icon, name, path),
    decreases b.len(),
{
    if b.len() == 0 {
        assert(a + b =~= a);
        assert(substitute(a, uris, icon, name, path) + seq![] =~= substitute(
            a,
            uris,
            icon,
            name,
            path,
        ));
    } else {
        assert((a + b).drop_last() =~= a + b.drop_last());
        lemma_substitute_concat(a, b.drop_last(), uris, icon, name, path);
        assert((a + b).last() == b.last());
        let sa = substitute(a, uris, icon, name, path);
        let sb = substitute(b.drop_last(), uris, icon, name, path);
        match substitute_token(b.last(), uris, icon, name, path) {
            Some(x) => {
                assert((sa + sb).push(x) =~= sa + sb.push(x));
            },
            None => {},
        }
    }
}

/// `%f` and `%u`, wherever they stand, are dropped when there are no URIs and
/// otherwise become the first URI alone, however many there are.
pub proof fn lemma_single_uri_codes(
    a: Seq<FieldToken>,
    t: FieldToken,
    b: Seq<FieldToken>,
    uris: Seq<Seq<char>>,
    icon: Option<Seq<char>>,
    name: Option<Seq<char>>,
    path: Seq<char>,
)
    requires
        t is SingleFileName || t is SingleUrl,
    ensures
        substitute(a + seq![t] + b, uris, icon, name, path) == substitute(
            a,
            uris,
            icon,
            name,
            path,
        ) + (if uris.len() == 0 {
            seq![]
        } else {
            seq![uris[0]]
        }) + substitute(b, uris, icon, name, path),
{
    lemma_substitute_concat(a, seq![t], uris, icon, name, path);
    lemma_substitute_concat(a + seq![t], b, uris, icon, name, path);
    let single: Seq<FieldToken> = seq![t];
    assert(single.drop_last() =~= seq![]);
    assert(single.last() == t);
    let empty: Seq<Seq<char>> = seq![];
    assert(substitute(single.drop_last(), uris, icon, name, path) == empty);
    if uris.len() > 0 {
        assert(empty.push(substitute_token(t, uris, icon, name, path)->Some_0) =~= seq![
            substitute_token(t, uris, icon, name, path)->Some_0,
        ]);
    }
}

/// `%F` and `%U`, wherever they stand, are dropped when there are no URIs and
/// otherwise become one argument: all the URIs joined by single spaces.
pub proof fn lemma_uri_list_codes(
    a: Seq<FieldToken>,
    t: FieldToken,
    b: Seq<FieldToken>,
    uris: Seq<Seq<char>>,
    icon: Option<Seq<char>>,
    name: Option<Seq<char>>,
    path: Seq<char>,
)
    requires
        t is FileList || t is UrlList,
    ensures
        substitute(a + seq![t] + b, uris, icon, name, path) == substitute(
            a,
            uris,
            icon,
            name,
            path,
        ) + (if uris.len() == 0 {
            seq![]
        } else {
            seq![join_spaced(uris)]
        }) + substitute(b, uris, icon, name, path),
{
    lemma_substitute_concat(a, seq![t], uris, icon, name, path);
    lemma_substitute_concat(a + seq![t], b, uris, icon, name, path);
    let single: Seq<FieldToken> = seq![t];
    assert(single.drop_last() =~= seq![]);
    assert(single.last() == t);
    let empty: Seq<Seq<char>> = seq![];
    assert(substitute(single.drop_last(), uris, icon, name, path) == empty);
    if uris.len() > 0 {
        assert(empty.push(substitute_token(t, uris, icon, name, path)->Some_0) =~= seq![
            substitute_token(t, uris, icon, name, path)->Some_0,
        ]);
    }
}

/// An exec string that substitution reduces to no argument at all makes the launch
/// fail with the empty-exec-string error, whatever the environment.
pub proof fn lemma_nothing_left_fails(
    entry: DesktopEntry,
    exec_line: Seq<char>,
    uris: Seq<Seq<char>>,
    prefer_non_default_gpu: bool,
    env: LaunchEnv,
)
    requires
        parse_exec(exec_line) is Ok,
        substitute(
            parse_exec(exec_line)->Ok_0,
            uris,
            opt_string_view(entry.icon),
            entry.translated_name(
                match env.lang {
                    Some(l) => Some(locale_of(l@)),
                    None => None,
                },
            ),
            entry.path@,
        ).len() == 0,
    ensures
        entry.resolved_args(exec_line, uris, opt_string_view(env.lang)) == Err::<
            Seq<Seq<char>>,
            ExecErrorView,
        >(ExecErrorView::EmptyExecString),
        entry.planned(exec_line, uris, prefer_non_default_gpu, env) == Err::<
            PlanView,
            ExecErrorView,
        >(ExecErrorView::EmptyExecString),
{
}

/// Literal arguments come out of substitution as they went in.
pub proof fn lemma_substitute_literals(
    ws: Seq<Seq<char>>,
    uris: Seq<Seq<char>>,
    icon: Option<Seq<char>>,
    name: Option<Seq<char>>,
    path: Seq<char>,
)
    ensures
        substitute(ws.map_values(|w: Seq<char>| FieldToken::Arg(w)), uris, icon, name, path) == ws,
    decreases ws.len(),
{
    let ts = ws.map_values(|w: Seq<char>| FieldToken::Arg(w));
    if ws.len() == 0 {
        assert(ts =~= seq![]);
        assert(ws =~= seq![]);
    } else {
        lemma_substitute_literals(ws.drop_last(), uris, icon, name, path);
        assert(ts.drop_last() =~= ws.drop_last().map_values(|w: Seq<char>| FieldToken::Arg(w)));
        assert(ts.last() == FieldToken::Arg(ws.last()));
        assert(ws.drop_last().push(ws.last()) =~= ws);
    }
}

/// An exec string that does not open with a quote and whose words all are literal
/// resolves to exactly those words, in their original order.
pub proof fn lemma_literal_exec_resolves_to_its_words(
    entry: DesktopEntry,
    exec_line: Seq<char>,
    uris: Seq<Seq<char>>,
    lang: Option<Seq<char>>,
)
    requires
        !(exec_line.len() > 0 && exec_line[0] == '"'),
        words(exec_line).len() > 0,
        forall|i: int| 0 <= i < words(exec_line).len() ==> is_literal_word(#[trigger] words(exec_line)[i]),
    ensures
        entry.resolved_args(exec_line, uris, lang) == Ok::<Seq<Seq<char>>, ExecErrorView>(
            words(exec_line),
        ),
{
    let ws = words(exec_line);
    lemma_literal_words_pass_through(ws);
    let locale = match lang {
        Some(l) => Some(locale_of(l)),
        None => None,
    };
    lemma_substitute_literals(
        ws,
        uris,
        opt_string_view(entry.icon),
        entry.translated_name(locale),
        entry.path@,
    );
}

/// Whether `s` holds no double quote.
pub open spec fn has_no_quote(s: Seq<char>) -> bool {
    forall|i: int| 0 <= i < s.len() ==> s[i] != '"'
}

/// A whole exec string wrapped in one pair of double quotes is read as the string
/// inside them: it gives the same tokens and the same launch.
pub proof fn lemma_quoted_exec_is_unwrapped(
    entry: DesktopEntry,
    inner: Seq<char>,
    uris: Seq<Seq<char>>,
    prefer_non_default_gpu: bool,
    env: LaunchEnv,
)
    requires
        has_no_quote(inner),
    ensures
        parse_exec(seq!['"'] + inner + seq!['"']) == parse_exec(inner),
        entry.planned(seq!['"'] + inner + seq!['"'], uris, prefer_non_default_gpu, env)
            == entry.planned(inner, uris, prefer_non_default_gpu, env),
{
    let q = seq!['"'] + inner + seq!['"'];
    assert(q[0] == '"');
    assert(q.last() == '"');
    assert(q.subrange(1, q.len() - 1) =~= inner);
    assert(unquote(inner) == Ok::<Seq<char>, ExecErrorView>(inner)) by {
        if inner.len() > 0 {
            assert(inner[0] != '"');
        }
    };
}

/// An exec string that opens a quote and never closes it fails with the
/// unmatched-quote error naming the whole string, whatever the rest of the launch.
pub proof fn lemma_unclosed_quote_fails(
    entry: DesktopEntry,
    exec_line: Seq<char>,
    uris: Seq<Seq<char>>,
    prefer_non_default_gpu: bool,
    env: LaunchEnv,
)
    requires
        exec_line.len() > 0,
        exec_line[0] == '"',
        has_no_quote(exec_line.drop_first()),
    ensures
        parse_exec(exec_line) == Err::<Seq<FieldToken>, ExecErrorView>(
            ExecErrorView::UnmatchedQuote { command: exec_line },
        ),
        entry.planned(exec_line, uris, prefer_non_default_gpu, env) == Err::<
            PlanView,
            ExecErrorView,
        >(ExecErrorView::UnmatchedQuote { command: exec_line }),
{
    if exec_line.len() >= 2 {
        assert(exec_line.drop_first()[exec_line.len() - 2] == exec_line.last());
    }
}

/// A terminal entry on a machine with no terminal emulator to be found is still
/// planned, around Konsole with `-e`: detection never fails, and a missing program
/// shows only when it is spawned.
pub proof fn lemma_terminal_falls_back_to_konsole(
    entry: DesktopEntry,
    exec_line: Seq<char>,
    uris: Seq<Seq<char>>,
    prefer_non_default_gpu: bool,
    env: LaunchEnv,
)
    requires
        entry.terminal,
        !env.bus_actionable,
        env.shell is Some,
        env.terminal.link is None,
        !env.terminal.gnome_terminal_exists,
        entry.resolved_args(exec_line, uris, opt_string_view(env.lang)) is Ok,
    ensures
        entry.planned(exec_line, uris, prefer_non_default_gpu, env) == Ok::<
            PlanView,
            ExecErrorView,
        >(
            PlanView::Spawn {
                program: env.shell->Some_0@,
                args: seq![
                    seq!['-', 'c'],
                    KONSOLE@ + seq![' '] + "-e"@ + seq![' '] + join_spaced(
                        entry.resolved_args(exec_line, uris, opt_string_view(env.lang))->Ok_0,
                    ),
                ],
                working_dir: opt_string_view(entry.working_dir),
                env: gpu_env(prefer_non_default_gpu, env.gpu),
            },
        ),
{
}

} // verus!

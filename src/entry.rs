use vstd::prelude::*;

verus! {

/// A parsed desktop entry: the keys that launching reads.
pub struct DesktopEntry {
    /// Where the entry's own file lies.
    pub path: String,
    /// The `Exec` key.
    pub exec_line: Option<String>,
    /// The `Actions` key: action names separated by `;`.
    pub actions: Option<String>,
    /// The `Exec` key of each action group, by action name.
    pub action_execs: Vec<(String, String)>,
    /// The `Icon` key.
    pub icon: Option<String>,
    /// The `Name` key without a locale.
    pub name: Option<String>,
    /// The `Name[locale]` keys, by locale.
    pub localized_names: Vec<(String, String)>,
    /// The `Path` key: the working directory.
    pub working_dir: Option<String>,
    /// The `Terminal` key.
    pub terminal: bool,
}

pub open spec fn opt_string_view(o: Option<String>) -> Option<Seq<char>> {
    match o {
        Some(s) => Some(s@),
        None => None,
    }
}

pub open spec fn opt_str_view(o: Option<&str>) -> Option<Seq<char>> {
    match o {
        Some(s) => Some(s@),
        None => None,
    }
}

/// The value of the first pair whose key is `key`.
pub open spec fn lookup(pairs: Seq<(String, String)>, key: Seq<char>) -> Option<Seq<char>>
    decreases pairs.len(),
{
    if pairs.len() == 0 {
        None
    } else {
        match lookup(pairs.drop_last(), key) {
            Some(v) => Some(v),
            None => if pairs.last().0@ == key {
                Some(pairs.last().1@)
            } else {
                None
            },
        }
    }
}

/// Reading `s` left to right: the parts already closed by `sep`, and the part in progress.
pub open spec fn scan_parts(s: Seq<char>, sep: char) -> (Seq<Seq<char>>, Seq<char>)
    decreases s.len(),
{
    if s.len() == 0 {
        (seq![], seq![])
    } else {
        let (done, cur) = scan_parts(s.drop_last(), sep);
        if s.last() == sep {
            (done.push(cur), seq![])
        } else {
            (done, cur.push(s.last()))
        }
    }
}

/// The pieces of `s` between occurrences of `sep`, empty ones included, as `str::split` gives them.
pub open spec fn parts(s: Seq<char>, sep: char) -> Seq<Seq<char>> {
    let (done, cur) = scan_parts(s, sep);
    done.push(cur)
}

/// Whether two strings hold the same characters.
pub fn str_eq(a: &str, b: &str) -> (r: bool)
    ensures
        r == (a@ == b@),
{
    String::from_str(a) == String::from_str(b)
}

fn as_opt_str(o: &Option<String>) -> (r: Option<&str>)
    ensures
        opt_str_view(r) == opt_string_view(*o),
{
    match o {
        Some(s) => Some(s.as_str()),
        None => None,
    }
}

/// The value of the first pair whose key is `key`.
pub fn find_value<'a>(pairs: &'a Vec<(String, String)>, key: &str) -> (r: Option<&'a str>)
    ensures
        opt_str_view(r) == lookup(pairs@, key@),
{
    let mut i: usize = 0;
    while i < pairs.len()
        invariant
            i <= pairs@.len(),
            lookup(pairs@.take(i as int), key@) is None,
        decreases pairs@.len() - i,
    {
        proof {
            assert(pairs@.take(i + 1).drop_last() =~= pairs@.take(i as int));
        }
        if str_eq(pairs[i].0.as_str(), key) {
            proof {
                lemma_lookup_found_extends(pairs@, key@, i + 1);
            }
            return Some(pairs[i].1.as_str());
        }
        i = i + 1;
    }
    proof {
        assert(pairs@.take(i as int) =~= pairs@);
    }
    None
}

proof fn lemma_lookup_found_extends(pairs: Seq<(String, String)>, key: Seq<char>, k: int)
    requires
        0 <= k <= pairs.len(),
        lookup(pairs.take(k), key) is Some,
    ensures
        lookup(pairs, key) == lookup(pairs.take(k), key),
    decreases pairs.len() - k,
{
    if k < pairs.len() {
        assert(pairs.take(k + 1).drop_last() =~= pairs.take(k));
        lemma_lookup_found_extends(pairs, key, k + 1);
    } else {
        assert(pairs.take(k) =~= pairs);
    }
}

impl DesktopEntry {
    /// The `Exec` key.
    pub fn exec_line(&self) -> (r: Option<&str>)
        ensures
            opt_str_view(r) == opt_string_view(self.exec_line),
    {
        as_opt_str(&self.exec_line)
    }

    /// The `Exec` key of the named action's group.
    pub fn action_exec(&self, action: &str) -> (r: Option<&str>)
        ensures
            opt_str_view(r) == lookup(self.action_execs@, action@),
    {
        find_value(&self.action_execs, action)
    }

    /// The `Actions` key.
    pub fn actions(&self) -> (r: Option<&str>)
        ensures
            opt_str_view(r) == opt_string_view(self.actions),
    {
        as_opt_str(&self.actions)
    }

    /// The `Icon` key.
    pub fn icon(&self) -> (r: Option<&str>)
        ensures
            opt_str_view(r) == opt_string_view(self.icon),
    {
        as_opt_str(&self.icon)
    }

    /// The `Name` key for `locale`, or the plain `Name` key when no locale is given.
    pub fn name(&self, locale: Option<&str>) -> (r: Option<&str>)
        ensures
            opt_str_view(r) == self.spec_name(opt_str_view(locale)),
    {
        match locale {
            Some(l) => find_value(&self.localized_names, l),
            None => as_opt_str(&self.name),
        }
    }

    pub open spec fn spec_name(&self, locale: Option<Seq<char>>) -> Option<Seq<char>> {
        match locale {
            Some(l) => lookup(self.localized_names@, l),
            None => opt_string_view(self.name),
        }
    }

    /// The `Path` key: the directory to run in.
    pub fn path(&self) -> (r: Option<&str>)
        ensures
            opt_str_view(r) == opt_string_view(self.working_dir),
    {
        as_opt_str(&self.working_dir)
    }

    /// The `Terminal` key.
    pub fn terminal(&self) -> (r: bool)
        ensures
            r == self.terminal,
    {
        self.terminal
    }

    /// Whether `action` is one of the names listed under `Actions`; the empty pieces
    /// around separators name no action.
    pub open spec fn declares_action(&self, action: Seq<char>) -> bool {
        match self.actions {
            Some(a) => action.len() > 0 && parts(a@, ';').contains(action),
            None => false,
        }
    }

    /// Whether `action` is one of the names listed under `Actions`.
    pub fn has_action(&self, action: &str) -> (r: bool)
        ensures
            r == self.declares_action(action@),
    {
        match self.actions() {
            Some(a) => list_contains(a, action),
            None => false,
        }
    }
}

/// Whether `item` is one of the non-empty `;`-separated pieces of `list`.
pub fn list_contains(list: &str, item: &str) -> (r: bool)
    ensures
        r == (item@.len() > 0 && parts(list@, ';').contains(item@)),
{
    if item.unicode_len() == 0 {
        return false;
    }
    let n = list.unicode_len();
    let mut start: usize = 0;
    let mut i: usize = 0;
    while i < n
        invariant
            n == list@.len(),
            item@.len() > 0,
            start <= i <= n,
            scan_parts(list@.take(i as int), ';').1 == list@.subrange(start as int, i as int),
            !scan_parts(list@.take(i as int), ';').0.contains(item@),
        decreases n - i,
    {
        let c = list.get_char(i);
        let ghost before = scan_parts(list@.take(i as int), ';');
        proof {
            assert(list@.take(i + 1).drop_last() =~= list@.take(i as int));
            assert(list@.take(i + 1).last() == c);
        }
        if c == ';' {
            if str_eq(list.substring_char(start, i), item) {
                proof {
                    let after = scan_parts(list@.take(i + 1), ';');
                    assert(after.0 == before.0.push(before.1));
                    assert(after.0[after.0.len() - 1] == item@);
                    lemma_parts_closed_extends(list@, i + 1, item@);
                }
                return true;
            }
            proof {
                let after = scan_parts(list@.take(i + 1), ';');
                assert(after.0 == before.0.push(before.1));
                assert forall|k: int| 0 <= k < after.0.len() implies after.0[k] != item@ by {
                    if k < before.0.len() {
                        assert(after.0[k] == before.0[k]);
                    }
                }
            }
            start = i + 1;
            proof {
                assert(list@.subrange(start as int, start as int) =~= seq![]);
            }
        } else {
            proof {
                assert(list@.subrange(start as int, i as int).push(c) =~= list@.subrange(
                    start as int,
                    i + 1,
                ));
            }
        }
        i = i + 1;
    }
    proof {
        assert(list@.take(n as int) =~= list@);
    }
    let last = str_eq(list.substring_char(start, n), item);
    proof {
        let (done, cur) = scan_parts(list@, ';');
        let p = done.push(cur);
        if last {
            assert(p[p.len() - 1] == item@);
        } else {
            assert forall|k: int| 0 <= k < p.len() implies p[k] != item@ by {
                if k < done.len() {
                    assert(p[k] == done[k]);
                }
            }
        }
    }
    last
}

/// A part closed by `sep` in a prefix stays among the parts of the whole.
proof fn lemma_parts_closed_extends(s: Seq<char>, k: int, x: Seq<char>)
    requires
        0 <= k <= s.len(),
        scan_parts(s.take(k), ';').0.contains(x),
    ensures
        parts(s, ';').contains(x),
    decreases s.len() - k,
{
    if k < s.len() {
        assert(s.take(k + 1).drop_last() =~= s.take(k));
        let before = scan_parts(s.take(k), ';');
        let after = scan_parts(s.take(k + 1), ';');
        let j = choose|j: int| 0 <= j < before.0.len() && before.0[j] == x;
        if s.take(k + 1).last() == ';' {
            assert(after.0[j] == x);
        } else {
            assert(after.0 == before.0);
        }
        lemma_parts_closed_extends(s, k + 1, x);
    } else {
        assert(s.take(k) =~= s);
        let (done, cur) = scan_parts(s, ';');
        let j = choose|j: int| 0 <= j < done.len() && done[j] == x;
        assert(done.push(cur)[j] == x);
    }
}

} // verus!

use vstd::prelude::*;

verus! {

/// What the file system says about the terminal emulators, as read by the caller.
pub struct TerminalProbe {
    /// The target of the `/usr/bin/x-terminal-emulator` link, if it is a readable link.
    pub link: Option<String>,
    /// The target of that target, if it is itself a readable link.
    pub link_of_link: Option<String>,
    /// Whether `/usr/bin/gnome-terminal` exists.
    pub gnome_terminal_exists: bool,
}

/// A terminal emulator and the argument after which it takes the command to run.
pub struct Terminal {
    pub program: String,
    pub separator: String,
}

/// The link that names the system's preferred terminal emulator.
pub const TERMINAL_LINK: &'static str = "/usr/bin/x-terminal-emulator";

/// The fallback when the link is absent and GNOME Terminal is installed.
pub const GNOME_TERMINAL: &'static str = "/usr/bin/gnome-terminal";

/// The last fallback, taken without looking whether it exists.
pub const KONSOLE: &'static str = "/usr/bin/konsole";

/// Whether `pat` occurs in `s` as a contiguous run.
pub open spec fn occurs_in(s: Seq<char>, pat: Seq<char>) -> bool {
    exists|i: int| 0 <= i && i + pat.len() <= s.len() && #[trigger] s.subrange(i, i + pat.len()) == pat
}

/// Whether `pat` occurs in `s`.
pub fn str_contains(s: &str, pat: &str) -> (r: bool)
    ensures
        r == occurs_in(s@, pat@),
{
    let n = s.unicode_len();
    let m = pat.unicode_len();
    if m > n {
        proof {
            assert forall|i: int| 0 <= i && i + pat@.len() <= s@.len() implies #[trigger] s@.subrange(
                i,
                i + pat@.len(),
            ) != pat@ by {};
        }
        return false;
    }
    let mut i: usize = 0;
    while i <= n - m
        invariant
            n == s@.len(),
            m == pat@.len(),
            m <= n,
            i <= n - m + 1,
            forall|k: int| 0 <= k < i ==> #[trigger] s@.subrange(k, k + m) != pat@,
        decreases n - m + 1 - i,
    {
        let mut j: usize = 0;
        let mut same = true;
        while j < m
            invariant
                n == s@.len(),
                m == pat@.len(),
                i + m <= n,
                j <= m,
                same == forall|k: int| 0 <= k < j ==> s@[i + k] == pat@[k],
            decreases m - j,
        {
            if s.get_char(i + j) != pat.get_char(j) {
                same = false;
            }
            j = j + 1;
        }
        if same {
            proof {
                assert(s@.subrange(i as int, i + m) =~= pat@);
            }
            return true;
        }
        proof {
            let k = choose|k: int| 0 <= k < m && s@[i + k] != pat@[k];
            assert(s@.subrange(i as int, i + m)[k] == s@[i + k]);
            assert(s@.subrange(i as int, i + m) != pat@);
        }
        i = i + 1;
    }
    proof {
        assert forall|i: int| 0 <= i && i + pat@.len() <= s@.len() implies #[trigger] s@.subrange(
            i,
            i + pat@.len(),
        ) != pat@ by {
            assert(i < n - m + 1);
        };
    }
    false
}

/// The terminal that the probe points to: the link's own target (followed one level further
/// where that is a link too), with `--` for GNOME Terminal and `-e` otherwise; without the
/// link, GNOME Terminal if it exists, else Konsole.
pub open spec fn chosen_terminal(
    link: Option<Seq<char>>,
    link_of_link: Option<Seq<char>>,
    gnome_terminal_exists: bool,
) -> (Seq<char>, Seq<char>) {
    match link {
        Some(found) => (
            match link_of_link {
                Some(t) => t,
                None => found,
            },
            if occurs_in(found, "gnome-terminal"@) {
                "--"@
            } else {
                "-e"@
            },
        ),
        None => if gnome_terminal_exists {
            (GNOME_TERMINAL@, "--"@)
        } else {
            (KONSOLE@, "-e"@)
        },
    }
}

impl TerminalProbe {
    pub open spec fn chosen(&self) -> (Seq<char>, Seq<char>) {
        chosen_terminal(
            match self.link {
                Some(s) => Some(s@),
                None => None,
            },
            match self.link_of_link {
                Some(s) => Some(s@),
                None => None,
            },
            self.gnome_terminal_exists,
        )
    }
}

/// Picks the terminal emulator; this never fails, a missing program shows only at spawn.
pub fn detect_terminal(probe: &TerminalProbe) -> (r: Terminal)
    ensures
        (r.program@, r.separator@) == probe.chosen(),
{
    match &probe.link {
        Some(found) => {
            let separator = if str_contains(found.as_str(), "gnome-terminal") {
                String::from_str("--")
            } else {
                String::from_str("-e")
            };
            let program = match &probe.link_of_link {
                Some(t) => String::from_str(t.as_str()),
                None => String::from_str(found.as_str()),
            };
            Terminal { program, separator }
        },
        None => if probe.gnome_terminal_exists {
            Terminal { program: String::from_str(GNOME_TERMINAL), separator: String::from_str("--") }
        } else {
            Terminal { program: String::from_str(KONSOLE), separator: String::from_str("-e") }
        },
    }
}

} // verus!

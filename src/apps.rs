//! Installed applications and the processes that belong to them.

use vstd::prelude::*;
use crate::memory::{capture_group1, regex_group1};
use crate::text::{chars_of, equals, head, split_first, string_of_chars, tail};

verus! {

/// An application installed on the system. It need not be running.
#[derive(Debug, Clone)]
pub struct App {
    processes: Vec<i32>,
    pub commandline: Option<String>,
    pub executable_name: Option<String>,
    pub display_name: String,
    pub description: Option<String>,
    pub id: String,
    pub read_bytes_from_dead_processes: u64,
    pub write_bytes_from_dead_processes: u64,
}

impl App {
    /// The ids of the application's live processes, in the order they were added.
    pub closed spec fn pids(&self) -> Seq<i32> {
        self.processes@
    }

    /// Its id, display name, description, command line and executable name.
    pub closed spec fn identity(&self) -> (String, String, Option<String>, Option<String>, Option<String>) {
        (self.id, self.display_name, self.description, self.commandline, self.executable_name)
    }

    /// Bytes read and written by processes of the application that have ended.
    pub closed spec fn dead_io(&self) -> (u64, u64) {
        (self.read_bytes_from_dead_processes, self.write_bytes_from_dead_processes)
    }

    /// An application with no process yet.
    pub fn new(
        id: String,
        display_name: String,
        description: Option<String>,
        commandline: Option<String>,
        executable_name: Option<String>,
    ) -> (r: App)
        ensures
            r.pids() == Seq::<i32>::empty(),
            r.identity() == (id, display_name, description, commandline, executable_name),
            r.dead_io() == (0u64, 0u64),
    {
        App {
            processes: Vec::new(),
            commandline,
            executable_name,
            display_name,
            description,
            id,
            read_bytes_from_dead_processes: 0,
            write_bytes_from_dead_processes: 0,
        }
    }

    /// Records process `pid` as the application's.
    pub fn add_process(&mut self, pid: i32)
        ensures
            final(self).pids() == old(self).pids().push(pid),
    {
        self.processes.push(pid);
    }

    /// Forgets every record of process `pid`.
    pub fn remove_process(&mut self, pid: i32)
        ensures
            final(self).pids() == old(self).pids().filter(|p: i32| p != pid),
    {
        let mut kept: Vec<i32> = Vec::new();
        let mut i: usize = 0;
        while i < self.processes.len()
            invariant
                i <= self.processes.len(),
                kept@ == self.processes@.take(i as int).filter(|p: i32| p != pid),
            decreases self.processes.len() - i,
        {
            let p = self.processes[i];
            proof {
                reveal(Seq::filter);
                assert(self.processes@.take(i + 1).drop_last() =~= self.processes@.take(i as int));
            }
            if p != pid {
                kept.push(p);
            }
            i = i + 1;
        }
        proof {
            assert(self.processes@.take(i as int) =~= self.processes@);
        }
        self.processes = kept;
    }

    /// Whether any process of the application is alive.
    pub fn is_running(&self) -> (r: bool)
        ensures
            r == (self.pids().len() > 0),
    {
        self.processes.len() > 0
    }
}

pub const RE_ENV_FILTER: &'static str = "env\\s*\\S*=\\S*\\s*(.*)";

pub const RE_FLATPAK_FILTER: &'static str = "flatpak run .* --command=(\\S*)";

/// Executables that are shells or launchers, not applications.
pub open spec fn blocked_executable(name: Seq<char>) -> bool {
    name == "bash"@ || name == "zsh"@ || name == "fish"@ || name == "sh"@ || name == "ksh"@ || name
        == "flatpak"@
}

/// Desktop-file ids that are not applications of their own.
pub open spec fn blocked_id(id: Seq<char>) -> bool {
    id == "org.gnome.Terminal.Preferences"@ || id == "org.freedesktop.IBus.Panel.Extension.Gtk3"@ || id
        == "org.gnome.RemoteDesktop.Handover"@
}

/// Why a desktop entry gives no application.
#[derive(Debug, Clone, Copy, PartialEq, Eq, Structural)]
pub enum DesktopError {
    NoId,
    BlockedId,
    BlockedExecutable,
}

/// The value of the first `key` in `entry`.
pub open spec fn lookup(entry: Seq<(Seq<char>, Seq<char>)>, key: Seq<char>) -> Option<Seq<char>>
    decreases entry.len(),
{
    if entry.len() == 0 {
        None
    } else if entry[0].0 == key {
        Some(entry[0].1)
    } else {
        lookup(entry.drop_first(), key)
    }
}

/// The part of `s` after its last `/`.
pub open spec fn last_segment(s: Seq<char>) -> Seq<char>
    decreases s.len(),
{
    match tail(s, "/"@) {
        Some(t) => if t.len() < s.len() {
            last_segment(t)
        } else {
            t
        },
        None => s,
    }
}

/// The command line of an `Exec` value: what follows an `env VAR=value`
/// prefix, else the value itself.
pub open spec fn commandline_of(exec: Seq<char>) -> Seq<char> {
    match regex_group1(RE_ENV_FILTER@, exec) {
        Some(g) => g,
        None => exec,
    }
}

/// The executable a command line runs: the `--command` of a flatpak run,
/// else the first word; without its directory.
pub open spec fn executable_of(cmd: Seq<char>) -> Seq<char> {
    let x = match regex_group1(RE_FLATPAK_FILTER@, cmd) {
        Some(g) => g,
        None => cmd,
    };
    last_segment(head(x, " "@))
}

/// The first of the keys `prefix[locale]` that `entry` has, for `locales` in order.
pub open spec fn localized(entry: Seq<(Seq<char>, Seq<char>)>, prefix: Seq<char>, locales: Seq<Seq<char>>) -> Option<Seq<char>>
    decreases locales.len(),
{
    if locales.len() == 0 {
        None
    } else {
        match lookup(entry, prefix + seq!['['] + locales[0] + seq![']']) {
            Some(v) => Some(v),
            None => localized(entry, prefix, locales.drop_first()),
        }
    }
}

pub open spec fn pairs_view(entry: Seq<(String, String)>) -> Seq<(Seq<char>, Seq<char>)> {
    entry.map_values(|p: (String, String)| (p.0@, p.1@))
}

fn lookup_in(entry: &Vec<(String, String)>, key: &Vec<char>) -> (r: Option<String>)
    ensures
        match (r, lookup(pairs_view(entry@), key@)) {
            (Some(a), Some(b)) => a@ == b,
            (None, None) => true,
            _ => false,
        },
{
    let ghost all = pairs_view(entry@);
    let mut i: usize = 0;
    assert(all.skip(0) =~= all);
    while i < entry.len()
        invariant
            i <= entry.len(),
            all == pairs_view(entry@),
            lookup(all, key@) == lookup(all.skip(i as int), key@),
        decreases entry.len() - i,
    {
        let ghost rest = all.skip(i as int);
        assert(rest.drop_first() =~= all.skip(i + 1));
        let k = chars_of(entry[i].0.as_str());
        if k.len() == key.len() {
            let mut same = true;
            let mut j: usize = 0;
            while j < k.len()
                invariant
                    j <= k.len(),
                    k.len() == key.len(),
                    same == (forall|x: int| 0 <= x < j ==> k@[x] == key@[x]),
                decreases k.len() - j,
            {
                if k[j] != key[j] {
                    same = false;
                }
                j = j + 1;
            }
            if same {
                assert(k@ =~= key@);
                return Some(entry[i].1.clone());
            }
            assert(k@ != key@) by {
                let x = choose|x: int| 0 <= x < j && k@[x] != key@[x];
            }
        }
        i = i + 1;
    }
    None
}

fn last_segment_of(s: &Vec<char>) -> (r: Vec<char>)
    ensures
        r@ == last_segment(s@),
    decreases s.len(),
{
    proof {
        reveal_strlit("/");
        crate::text::lemma_find_from_bound(s@, "/"@, 0);
    }
    let (_a, rest) = split_first(s, "/");
    match rest {
        Some(t) => {
            if t.len() < s.len() {
                last_segment_of(&t)
            } else {
                t
            }
        },
        None => {
            let mut c: Vec<char> = Vec::new();
            let mut i: usize = 0;
            while i < s.len()
                invariant
                    i <= s.len(),
                    c@ == s@.take(i as int),
                decreases s.len() - i,
            {
                c.push(s[i]);
                i = i + 1;
                assert(c@ =~= s@.take(i as int));
            }
            assert(c@ =~= s@);
            c
        },
    }
}

fn localized_in(entry: &Vec<(String, String)>, prefix: &str, locales: &Vec<String>) -> (r: Option<String>)
    ensures
        match (r, localized(pairs_view(entry@), prefix@, locales@.map_values(|l: String| l@))) {
            (Some(a), Some(b)) => a@ == b,
            (None, None) => true,
            _ => false,
        },
{
    let ghost ls = locales@.map_values(|l: String| l@);
    let mut i: usize = 0;
    assert(ls.skip(0) =~= ls);
    while i < locales.len()
        invariant
            i <= locales.len(),
            ls == locales@.map_values(|l: String| l@),
            localized(pairs_view(entry@), prefix@, ls) == localized(pairs_view(entry@), prefix@, ls.skip(i as int)),
        decreases locales.len() - i,
    {
        let ghost rest = ls.skip(i as int);
        assert(rest.drop_first() =~= ls.skip(i + 1));
        assert(rest[0] == locales@[i as int]@);
        let mut key = chars_of(prefix);
        key.push('[');
        let loc = chars_of(locales[i].as_str());
        let mut j: usize = 0;
        let ghost base = key@;
        while j < loc.len()
            invariant
                j <= loc.len(),
                key@ == base + loc@.take(j as int),
            decreases loc.len() - j,
        {
            key.push(loc[j]);
            j = j + 1;
            assert(key@ =~= base + loc@.take(j as int));
        }
        key.push(']');
        assert(key@ =~= prefix@ + seq!['['] + rest[0] + seq![']']);
        match lookup_in(entry, &key) {
            Some(v) => {
                return Some(v);
            },
            None => {},
        }
        i = i + 1;
    }
    None
}

/// The last component of a path.
pub fn file_name(path: &str) -> (r: String)
    ensures
        r@ == last_segment(path@),
{
    string_of_chars(&last_segment_of(&chars_of(path)))
}

/// The application a desktop entry describes. `entry` holds the keys and
/// values of its `Desktop Entry` section in order, `file_stem` the file's
/// name without extension, and `locales` the message locales by preference.
pub fn app_from_desktop_entry(entry: &Vec<(String, String)>, file_stem: Option<String>, locales: &Vec<String>) -> (r: Result<App, DesktopError>)
    ensures
        ({
            let e = pairs_view(entry@);
            let id = match lookup(e, "X-Flatpak"@) {
                Some(v) => Some(v),
                None => match lookup(e, "X-SnapInstanceName"@) {
                    Some(v) => Some(v),
                    None => match file_stem {
                        Some(s) => Some(s@),
                        None => None,
                    },
                },
            };
            let cmd = match lookup(e, "Exec"@) {
                Some(x) => Some(commandline_of(x)),
                None => None,
            };
            let exe = match cmd {
                Some(c) => Some(executable_of(c)),
                None => None,
            };
            match id {
                None => r == Err::<App, DesktopError>(DesktopError::NoId),
                Some(id) => if blocked_id(id) {
                    r == Err::<App, DesktopError>(DesktopError::BlockedId)
                } else if exe matches Some(x) && blocked_executable(x) {
                    r == Err::<App, DesktopError>(DesktopError::BlockedExecutable)
                } else {
                    match r {
                        Ok(app) => {
                            let ls = locales@.map_values(|l: String| l@);
                            &&& app.pids() == Seq::<i32>::empty()
                            &&& app.identity().0@ == id
                            &&& opt_chars(app.identity().3) == cmd
                            &&& opt_chars(app.identity().4) == exe
                            &&& app.identity().1@ == match localized(e, "Name"@, ls) {
                                Some(n) => n,
                                None => match lookup(e, "Name"@) {
                                    Some(n) => n,
                                    None => id,
                                },
                            }
                            &&& opt_chars(app.identity().2) == match localized(e, "Comment"@, ls) {
                                Some(c) => Some(c),
                                None => lookup(e, "Comment"@),
                            }
                            &&& app.dead_io() == (0u64, 0u64)
                        },
                        Err(_) => false,
                    }
                },
            }
        }),
{
    let id = match lookup_in(entry, &chars_of("X-Flatpak")) {
        Some(v) => v,
        None => match lookup_in(entry, &chars_of("X-SnapInstanceName")) {
            Some(v) => v,
            None => match file_stem {
                Some(s) => s,
                None => return Err(DesktopError::NoId),
            },
        },
    };
    let idc = chars_of(id.as_str());
    if equals(&idc, "org.gnome.Terminal.Preferences") || equals(&idc, "org.freedesktop.IBus.Panel.Extension.Gtk3")
        || equals(&idc, "org.gnome.RemoteDesktop.Handover") {
        return Err(DesktopError::BlockedId);
    }
    let commandline = match lookup_in(entry, &chars_of("Exec")) {
        Some(exec) => match capture_group1(RE_ENV_FILTER, exec.as_str()) {
            Some(g) => Some(g),
            None => Some(exec),
        },
        None => None,
    };
    let executable_name = match &commandline {
        Some(cmd) => {
            let x = match capture_group1(RE_FLATPAK_FILTER, cmd.as_str()) {
                Some(g) => g,
                None => cmd.clone(),
            };
            proof {
                reveal_strlit(" ");
            }
            let (first, _rest) = split_first(&chars_of(x.as_str()), " ");
            Some(string_of_chars(&last_segment_of(&first)))
        },
        None => None,
    };
    match &executable_name {
        Some(x) => {
            let xc = chars_of(x.as_str());
            if equals(&xc, "bash") || equals(&xc, "zsh") || equals(&xc, "fish") || equals(&xc, "sh")
                || equals(&xc, "ksh") || equals(&xc, "flatpak") {
                return Err(DesktopError::BlockedExecutable);
            }
        },
        None => {},
    }
    let display_name = match localized_in(entry, "Name", locales) {
        Some(n) => n,
        None => match lookup_in(entry, &chars_of("Name")) {
            Some(n) => n,
            None => id.clone(),
        },
    };
    let description = match localized_in(entry, "Comment", locales) {
        Some(c) => Some(c),
        None => lookup_in(entry, &chars_of("Comment")),
    };
    Ok(App::new(id, display_name, description, commandline, executable_name))
}

pub open spec fn opt_chars(o: Option<String>) -> Option<Seq<char>> {
    match o {
        Some(s) => Some(s@),
        None => None,
    }
}

} // verus!

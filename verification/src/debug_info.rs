//! The system and configuration report that users attach to bug reports.

use crate::paths::{file_name_of, path_file_name};
use crate::text::{chars_of, string_from_chars};
use vstd::prelude::*;
use vstd::string::StringExecFns;

verus! {

// ---------------------------------------------------------------------------
// The OS name in /etc/os-release
// ---------------------------------------------------------------------------

/// The index of the first `'\n'` of `c`, or its length when there is none.
pub open spec fn newline_index(c: Seq<char>) -> nat
    decreases c.len(),
{
    if c.len() == 0 {
        0
    } else if c[0] == '\n' {
        0
    } else {
        1 + newline_index(c.drop_first())
    }
}

/// A line without the `'\r'` of a `"\r\n"` ending.
pub open spec fn without_cr(l: Seq<char>) -> Seq<char> {
    if l.len() > 0 && l.last() == '\r' {
        l.drop_last()
    } else {
        l
    }
}

/// The lines of a text as std's `str::lines` gives them: split at `'\n'`, a
/// `'\r'` before a `'\n'` dropped, and no empty line after a final `'\n'`.
pub open spec fn text_lines(c: Seq<char>) -> Seq<Seq<char>>
    decreases c.len(),
{
    if c.len() == 0 {
        Seq::empty()
    } else {
        let k = newline_index(c);
        if k >= c.len() {
            seq![c]
        } else {
            seq![without_cr(c.take(k as int))] + text_lines(c.skip(k as int + 1))
        }
    }
}

/// `s` begins with `p`.
pub open spec fn begins_with(s: Seq<char>, p: Seq<char>) -> bool {
    p.len() <= s.len() && s.take(p.len() as int) == p
}

/// The first line that begins with `p`.
pub open spec fn first_line_with(ls: Seq<Seq<char>>, p: Seq<char>) -> Option<Seq<char>>
    decreases ls.len(),
{
    if ls.len() == 0 {
        None
    } else if begins_with(ls[0], p) {
        Some(ls[0])
    } else {
        first_line_with(ls.drop_first(), p)
    }
}

/// `s` with every leading repetition of `p` removed (`str::trim_start_matches`).
pub open spec fn without_prefixes(s: Seq<char>, p: Seq<char>) -> Seq<char>
    decreases s.len(),
{
    if p.len() > 0 && begins_with(s, p) {
        without_prefixes(s.skip(p.len() as int), p)
    } else {
        s
    }
}

/// `s` without its leading `c`s.
pub open spec fn trim_start_char(s: Seq<char>, c: char) -> Seq<char>
    decreases s.len(),
{
    if s.len() > 0 && s[0] == c {
        trim_start_char(s.drop_first(), c)
    } else {
        s
    }
}

/// `s` without its trailing `c`s.
pub open spec fn trim_end_char(s: Seq<char>, c: char) -> Seq<char>
    decreases s.len(),
{
    if s.len() > 0 && s.last() == c {
        trim_end_char(s.drop_last(), c)
    } else {
        s
    }
}

/// The key of the OS name line in os-release.
pub open spec fn pretty_name_key() -> Seq<char> {
    "PRETTY_NAME="@
}

/// The OS name that os-release gives: its first `PRETTY_NAME=` line, without
/// the key and without surrounding quotes.
pub open spec fn os_pretty_name(content: Seq<char>) -> Option<Seq<char>> {
    match first_line_with(text_lines(content), pretty_name_key()) {
        Some(l) => Some(trim_end_char(trim_start_char(without_prefixes(l, pretty_name_key()), '"'), '"')),
        None => None,
    }
}

fn begins_with_at(v: &Vec<char>, from: usize, to: usize, p: &Vec<char>) -> (b: bool)
    requires
        from <= to <= v.len(),
    ensures
        b == begins_with(v@.subrange(from as int, to as int), p@),
{
    if p.len() > to - from {
        return false;
    }
    let mut i: usize = 0;
    while i < p.len()
        invariant
            from <= to <= v.len(),
            p.len() <= to - from,
            i <= p.len(),
            forall|j: int| 0 <= j < i ==> v@[from + j] == p@[j],
        decreases p.len() - i,
    {
        if v[from + i] != p[i] {
            assert(v@.subrange(from as int, to as int).take(p.len() as int)[i as int] != p@[i as int]);
            return false;
        }
        i = i + 1;
    }
    assert(v@.subrange(from as int, to as int).take(p.len() as int) =~= p@);
    true
}

proof fn lemma_newline_index_is(c: Seq<char>, k: int)
    requires
        0 <= k <= c.len(),
        forall|i: int| 0 <= i < k ==> c[i] != '\n',
        k < c.len() ==> c[k] == '\n',
    ensures
        newline_index(c) == k,
    decreases c.len(),
{
    if c.len() > 0 && k > 0 {
        assert forall|i: int| 0 <= i < k - 1 implies c.drop_first()[i] != '\n' by {
            assert(c.drop_first()[i] == c[i + 1]);
        }
        lemma_newline_index_is(c.drop_first(), k - 1);
    }
}

fn copy_range(v: &Vec<char>, from: usize, to: usize) -> (r: Vec<char>)
    requires
        from <= to <= v.len(),
    ensures
        r@ == v@.subrange(from as int, to as int),
{
    let mut r: Vec<char> = Vec::new();
    let mut i = from;
    while i < to
        invariant
            from <= i <= to <= v.len(),
            r@ == v@.subrange(from as int, i as int),
        decreases to - i,
    {
        r.push(v[i]);
        assert(v@.subrange(from as int, (i + 1) as int) =~= v@.subrange(from as int, i as int).push(
            v@[i as int],
        ));
        i = i + 1;
    }
    r
}

fn strip_key_and_quotes(l: &Vec<char>, key: &Vec<char>) -> (r: String)
    requires
        key@ == pretty_name_key(),
    ensures
        r@ == trim_end_char(trim_start_char(without_prefixes(l@, pretty_name_key()), '"'), '"'),
{
    proof {
        reveal_strlit("PRETTY_NAME=");
    }
    let mut a: usize = 0;
    let n = l.len();
    assert(l@.subrange(0, n as int) =~= l@);
    while begins_with_at(l, a, n, key)
        invariant
            a <= n == l.len(),
            key@ == pretty_name_key(),
            key@.len() > 0,
            without_prefixes(l@, pretty_name_key()) == without_prefixes(
                l@.subrange(a as int, n as int),
                pretty_name_key(),
            ),
        decreases n - a,
    {
        assert(l@.subrange(a as int, n as int).skip(key@.len() as int) =~= l@.subrange(
            a + key.len(),
            n as int,
        ));
        a = a + key.len();
    }
    let ghost w = l@.subrange(a as int, n as int);
    assert(without_prefixes(l@, pretty_name_key()) == w);
    let mut b: usize = a;
    assert(l@.subrange(b as int, n as int) =~= w);
    while b < n && l[b] == '"'
        invariant
            a <= b <= n == l.len(),
            trim_start_char(w, '"') == trim_start_char(l@.subrange(b as int, n as int), '"'),
        decreases n - b,
    {
        assert(l@.subrange(b as int, n as int).drop_first() =~= l@.subrange(b + 1, n as int));
        b = b + 1;
    }
    let ghost t = l@.subrange(b as int, n as int);
    assert(trim_start_char(w, '"') == t);
    let mut e: usize = n;
    while e > b && l[e - 1] == '"'
        invariant
            b <= e <= n == l.len(),
            trim_end_char(t, '"') == trim_end_char(l@.subrange(b as int, e as int), '"'),
        decreases e,
    {
        assert(l@.subrange(b as int, e as int).drop_last() =~= l@.subrange(b as int, e - 1));
        e = e - 1;
    }
    let out = copy_range(l, b, e);
    string_from_chars(&out)
}

/// The OS name that an os-release file gives (see `os_pretty_name`).
pub fn os_name_from_release(content: &str) -> (r: Option<String>)
    ensures
        match r {
            Some(s) => os_pretty_name(content@) == Some(s@),
            None => os_pretty_name(content@) is None,
        },
{
    let c = chars_of(content);
    let key = chars_of("PRETTY_NAME=");
    let n = c.len();
    let mut start: usize = 0;
    assert(c@.skip(0) =~= c@);
    while start < n
        invariant
            start <= n == c.len(),
            c@ == content@,
            key@ == pretty_name_key(),
            first_line_with(text_lines(c@), pretty_name_key()) == first_line_with(
                text_lines(c@.skip(start as int)),
                pretty_name_key(),
            ),
        decreases n - start,
    {
        let ghost rest = c@.skip(start as int);
        let mut k = start;
        while k < n && c[k] != '\n'
            invariant
                start <= k <= n == c.len(),
                forall|i: int| start <= i < k ==> c@[i] != '\n',
            decreases n - k,
        {
            k = k + 1;
        }
        proof {
            lemma_newline_index_is(rest, k - start);
        }
        let line_end = if k < n && k > start && c[k - 1] == '\r' {
            k - 1
        } else {
            k
        };
        let ghost line = c@.subrange(start as int, line_end as int);
        assert(k < n ==> line =~= without_cr(rest.take(k - start)));
        assert(k >= n ==> line =~= rest);
        if begins_with_at(&c, start, line_end, &key) {
            assert(text_lines(rest)[0] == line);
            let l = copy_range(&c, start, line_end);
            return Some(strip_key_and_quotes(&l, &key));
        }
        if k >= n {
            assert(text_lines(rest) =~= seq![rest]);
            assert(first_line_with(text_lines(rest).drop_first(), pretty_name_key()) is None);
            start = n;
        } else {
            assert(rest.skip(k - start + 1) =~= c@.skip(k + 1));
            assert(text_lines(rest).drop_first() =~= text_lines(c@.skip(k + 1)));
            start = k + 1;
        }
    }
    assert(c@.skip(n as int) =~= Seq::<char>::empty());
    None
}

// ---------------------------------------------------------------------------
// The report
// ---------------------------------------------------------------------------

/// What the report is made of.
pub struct DebugFacts {
    /// The launcher's own version.
    pub app_version: String,
    /// The content of /etc/os-release, when it could be read.
    pub os_release: Option<String>,
    /// The output of `uname -r`, trimmed.
    pub kernel: String,
    /// `XDG_CURRENT_DESKTOP`, when set.
    pub desktop: Option<String>,
    /// `XDG_SESSION_TYPE`, when set.
    pub session: Option<String>,
    /// The graphics adapters that `lspci` lists, trimmed.
    pub gpu: String,
    /// The configured Proton directory.
    pub proton_dir: String,
    /// The installed game version; empty when the game is not installed.
    pub installed_version: String,
    /// Whether /dev/ntsync exists.
    pub ntsync: bool,
    pub use_native_vulkan: bool,
    pub use_wayland: bool,
    pub use_dxvk_async: bool,
    pub use_gamemode: bool,
    pub use_mangohud: bool,
    pub use_gamescope: bool,
    pub use_prime_offload: bool,
    pub disable_fsync: bool,
    pub disable_esync: bool,
    /// The end of the launch log.
    pub log_tail: String,
}

/// A boolean as Rust prints it.
pub open spec fn bool_text(b: bool) -> Seq<char> {
    if b {
        "true"@
    } else {
        "false"@
    }
}

/// An optional value, or a fallback.
pub open spec fn or_text(o: Option<String>, fallback: Seq<char>) -> Seq<char> {
    match o {
        Some(s) => s@,
        None => fallback,
    }
}

/// The OS line's name: the os-release name, or `unknown`.
pub open spec fn os_text(f: DebugFacts) -> Seq<char> {
    match f.os_release {
        Some(c) => match os_pretty_name(c@) {
            Some(n) => n,
            None => "unknown"@,
        },
        None => "unknown"@,
    }
}

/// The Proton line's name: the final component of the Proton directory, or
/// the whole directory when it has none.
pub open spec fn proton_text(f: DebugFacts) -> Seq<char> {
    match path_file_name(f.proton_dir@) {
        Some(n) => n,
        None => f.proton_dir@,
    }
}

/// The first lines of the report.
pub open spec fn report_head(f: DebugFacts) -> Seq<char> {
    "LLauncher "@ + f.app_version@ + "\nOS: "@ + os_text(f) + " (kernel "@ + f.kernel@
        + ")\nSession: "@ + or_text(f.desktop, "?"@) + " / "@ + or_text(f.session, "?"@)
        + "\nGPU: "@ + (if f.gpu@.len() == 0 {
        "unknown"@
    } else {
        f.gpu@
    }) + "\nProton: "@ + proton_text(f) + "\nGame version: "@ + (if f.installed_version@.len()
        == 0 {
        "not installed"@
    } else {
        f.installed_version@
    }) + "\nntsync: "@ + bool_text(f.ntsync)
}

/// The flags line of the report.
pub open spec fn report_flags(f: DebugFacts) -> Seq<char> {
    "\nFlags: vulkan="@ + bool_text(f.use_native_vulkan) + " wayland="@ + bool_text(f.use_wayland)
        + " dxvk_async="@ + bool_text(f.use_dxvk_async) + " gamemode="@ + bool_text(
        f.use_gamemode,
    ) + " mangohud="@ + bool_text(f.use_mangohud) + " gamescope="@ + bool_text(f.use_gamescope)
        + " prime="@ + bool_text(f.use_prime_offload) + " fsync_off="@ + bool_text(
        f.disable_fsync,
    ) + " esync_off="@ + bool_text(f.disable_esync)
}

/// The whole report.
pub open spec fn debug_report_text(f: DebugFacts) -> Seq<char> {
    report_head(f) + report_flags(f) + "\n\n--- launch.log tail ---\n"@ + f.log_tail@
}

fn bool_string(b: bool) -> (r: String)
    ensures
        r@ == bool_text(b),
{
    if b {
        String::from_str("true")
    } else {
        String::from_str("false")
    }
}

fn or_string(o: &Option<String>, fallback: &str) -> (r: String)
    ensures
        r@ == or_text(*o, fallback@),
{
    match o {
        Some(v) => v.clone(),
        None => String::from_str(fallback),
    }
}

fn nonempty_or(v: &String, fallback: &str) -> (r: String)
    ensures
        r@ == if v@.len() == 0 {
            fallback@
        } else {
            v@
        },
{
    if v.as_str().is_empty() {
        String::from_str(fallback)
    } else {
        v.clone()
    }
}

fn os_string(f: &DebugFacts) -> (r: String)
    ensures
        r@ == os_text(*f),
{
    match &f.os_release {
        Some(c) => match os_name_from_release(c.as_str()) {
            Some(n) => n,
            None => String::from_str("unknown"),
        },
        None => String::from_str("unknown"),
    }
}

fn proton_string(f: &DebugFacts) -> (r: String)
    ensures
        r@ == proton_text(*f),
{
    match file_name_of(f.proton_dir.as_str()) {
        Some(n) => n,
        None => f.proton_dir.clone(),
    }
}

fn head_string(f: &DebugFacts) -> (s: String)
    ensures
        s@ == report_head(*f),
{
    let mut s = String::from_str("LLauncher ");
    s.append(f.app_version.as_str());
    s.append("\nOS: ");
    let os = os_string(f);
    s.append(os.as_str());
    s.append(" (kernel ");
    s.append(f.kernel.as_str());
    s.append(")\nSession: ");
    let desktop = or_string(&f.desktop, "?");
    s.append(desktop.as_str());
    s.append(" / ");
    let session = or_string(&f.session, "?");
    s.append(session.as_str());
    s.append("\nGPU: ");
    let gpu = nonempty_or(&f.gpu, "unknown");
    s.append(gpu.as_str());
    s.append("\nProton: ");
    let proton = proton_string(f);
    s.append(proton.as_str());
    s.append("\nGame version: ");
    let gv = nonempty_or(&f.installed_version, "not installed");
    s.append(gv.as_str());
    s.append("\nntsync: ");
    let nt = bool_string(f.ntsync);
    s.append(nt.as_str());
    s
}

fn flags_string(f: &DebugFacts) -> (s: String)
    ensures
        s@ == report_flags(*f),
{
    let mut s = String::from_str("\nFlags: vulkan=");
    let b = bool_string(f.use_native_vulkan);
    s.append(b.as_str());
    s.append(" wayland=");
    let b = bool_string(f.use_wayland);
    s.append(b.as_str());
    s.append(" dxvk_async=");
    let b = bool_string(f.use_dxvk_async);
    s.append(b.as_str());
    s.append(" gamemode=");
    let b = bool_string(f.use_gamemode);
    s.append(b.as_str());
    s.append(" mangohud=");
    let b = bool_string(f.use_mangohud);
    s.append(b.as_str());
    s.append(" gamescope=");
    let b = bool_string(f.use_gamescope);
    s.append(b.as_str());
    s.append(" prime=");
    let b = bool_string(f.use_prime_offload);
    s.append(b.as_str());
    s.append(" fsync_off=");
    let b = bool_string(f.disable_fsync);
    s.append(b.as_str());
    s.append(" esync_off=");
    let b = bool_string(f.disable_esync);
    s.append(b.as_str());
    s
}

/// The system and configuration report for a bug report.
pub fn debug_report(f: &DebugFacts) -> (r: String)
    ensures
        r@ == debug_report_text(*f),
{
    let mut s = head_string(f);
    let flags = flags_string(f);
    s.append(flags.as_str());
    s.append("\n\n--- launch.log tail ---\n");
    s.append(f.log_tail.as_str());
    s
}

/// The report ends with its Flags line, which shows each launch setting
/// under its own name, in this order, followed by the tail of the launch log.
pub proof fn law_flags_show_each_setting(f: DebugFacts)
    ensures
        exists|head: Seq<char>|
            debug_report_text(f) == head + ("\nFlags: vulkan="@ + bool_text(f.use_native_vulkan)
                + " wayland="@ + bool_text(f.use_wayland) + " dxvk_async="@ + bool_text(
                f.use_dxvk_async,
            ) + " gamemode="@ + bool_text(f.use_gamemode) + " mangohud="@ + bool_text(
                f.use_mangohud,
            ) + " gamescope="@ + bool_text(f.use_gamescope) + " prime="@ + bool_text(
                f.use_prime_offload,
            ) + " fsync_off="@ + bool_text(f.disable_fsync) + " esync_off="@ + bool_text(
                f.disable_esync,
            )) + "\n\n--- launch.log tail ---\n"@ + f.log_tail@,
{
    let head = report_head(f);
    assert(debug_report_text(f) == head + report_flags(f) + "\n\n--- launch.log tail ---\n"@
        + f.log_tail@);
}

} // verus!

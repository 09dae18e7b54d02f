//! The snapshot of host facts that the renderer displays, and the pure parts
//! of assembling it.
use vstd::prelude::*;

verus! {

/// A snapshot of host facts, collected once per run. Every string is
/// best-effort: a missing fact arrives as a placeholder, never as an error.
pub struct SysInfo {
    pub hostname: String,
    pub username: String,
    pub os: String,
    pub kernel: String,
    pub uptime_seconds: u64,
    pub shell: String,
    pub cpu: String,
    pub cpu_cores: usize,
    pub memory_used: u64,
    pub memory_total: u64,
}

impl SysInfo {
    /// Used memory never exceeds the total (so a zero total forces zero used).
    pub open spec fn wf(&self) -> bool {
        self.memory_used <= self.memory_total
    }
}

pub open spec fn is_path_sep(c: char) -> bool {
    c == '/' || c == '\\'
}

/// The suffix of `s` after its last path separator (the whole of `s` when
/// there is none; empty when `s` ends in a separator).
pub open spec fn shell_name_of(s: Seq<char>) -> Seq<char>
    decreases s.len(),
{
    if s.len() == 0 {
        Seq::empty()
    } else if is_path_sep(s[s.len() - 1]) {
        Seq::empty()
    } else {
        shell_name_of(s.take(s.len() - 1)) + seq![s[s.len() - 1]]
    }
}

proof fn lemma_shell_name_suffix(s: Seq<char>, k: int)
    requires
        0 <= k <= s.len(),
        forall|j: int| k <= j < s.len() ==> !is_path_sep(#[trigger] s[j]),
        k == 0 || is_path_sep(s[k - 1]),
    ensures
        shell_name_of(s) == s.subrange(k, s.len() as int),
    decreases s.len(),
{
    if s.len() == 0 {
        assert(shell_name_of(s) =~= s.subrange(k, s.len() as int));
    } else if is_path_sep(s[s.len() - 1]) {
        assert(k == s.len());
        assert(shell_name_of(s) =~= s.subrange(k, s.len() as int));
    } else {
        let short = s.take(s.len() - 1);
        lemma_shell_name_suffix(short, k);
        assert(shell_name_of(s) =~= s.subrange(k, s.len() as int));
    }
}

/// The shell's display name: the last `/`- or `\`-separated component of the
/// path in the shell environment variable.
pub fn shell_from_path(s: &str) -> (r: String)
    ensures
        r@ == shell_name_of(s@),
{
    let n: usize = s.unicode_len();
    let mut k: usize = 0;
    let mut i: usize = 0;
    while i < n
        invariant
            n == s@.len(),
            k <= i <= n,
            k == 0 || is_path_sep(s@[k - 1]),
            forall|j: int| k <= j < i ==> !is_path_sep(#[trigger] s@[j]),
        decreases n - i,
    {
        let c = s.get_char(i);
        if c == '/' || c == '\\' {
            k = i + 1;
        }
        i = i + 1;
    }
    let tail = s.substring_char(k, n);
    proof {
        lemma_shell_name_suffix(s@, k as int);
    }
    tail.to_owned()
}

} // verus!

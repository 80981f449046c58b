//! Decisions of the resource manager: which downloads are allowed, which
//! files become executable, and which backup is the latest.
use vstd::prelude::*;

verus! {

/// Prefix that every update download must start with.
pub const ALLOWED_DOWNLOAD_PREFIX: &'static str =
    "https://github.com/nodecross/nodex/releases/download/";

/// Name of the agent binary inside an update bundle.
pub const AGENT_BINARY_NAME: &'static str = "miax-agent";

/// Directories the resource manager works in.
#[derive(Debug, Clone)]
pub struct UnixResourceManager {
    pub tmp_path: String,
    pub agent_path: String,
}

/// An entry of the staging directory.
#[derive(Debug, Clone)]
pub struct BackupEntry {
    pub file_name: String,
    pub is_file: bool,
    /// Modification time in seconds; zero when unknown.
    pub modified: u64,
}

/// A file whose extension is `gz`.
pub open spec fn is_gz_file(e: BackupEntry) -> bool {
    let n = e.file_name@;
    e.is_file && n.len() > 3 && n.subrange(n.len() - 3, n.len() as int) == ".gz"@
}

/// Whether `s` starts with `prefix`.
fn has_prefix(s: &str, prefix: &str) -> (r: bool)
    ensures
        r == (prefix@.len() <= s@.len() && s@.subrange(0, prefix@.len() as int) == prefix@),
{
    let n = prefix.unicode_len();
    if n > s.unicode_len() {
        return false;
    }
    let mut i: usize = 0;
    while i < n
        invariant
            n == prefix@.len(),
            n <= s@.len(),
            i <= n,
            forall|k: int| 0 <= k < i ==> s@[k] == prefix@[k],
        decreases n - i,
    {
        if s.get_char(i) != prefix.get_char(i) {
            return false;
        }
        i += 1;
    }
    assert(s@.subrange(0, n as int) =~= prefix@);
    true
}

fn ends_with_gz(s: &str) -> (r: bool)
    ensures
        r == (s@.len() > 3 && s@.subrange(s@.len() - 3, s@.len() as int) == ".gz"@),
{
    let n = s.unicode_len();
    if n <= 3 {
        return false;
    }
    let tail = s.substring_char(n - 3, n);
    crate::text::same_text(tail, ".gz")
}

impl UnixResourceManager {
    /// Whether an update may be downloaded from `url`.
    pub fn is_allowed_download_url(url: &str) -> (r: bool)
        ensures
            r == (ALLOWED_DOWNLOAD_PREFIX@.len() <= url@.len() && url@.subrange(
                0,
                ALLOWED_DOWNLOAD_PREFIX@.len() as int,
            ) == ALLOWED_DOWNLOAD_PREFIX@),
    {
        has_prefix(url, ALLOWED_DOWNLOAD_PREFIX)
    }

    /// Whether an unpacked file is to be made executable: the agent binary.
    pub fn is_agent_binary(file_name: &str) -> (r: bool)
        ensures
            r == (file_name@ == AGENT_BINARY_NAME@),
    {
        crate::text::same_text(file_name, AGENT_BINARY_NAME)
    }

    /// The latest backup among the staging directory's entries: the `.gz`
    /// file modified last, the later listed one on a tie.
    pub fn get_latest_backup(entries: &Vec<BackupEntry>) -> (r: Option<usize>)
        ensures
            r is None <==> forall|k: int| 0 <= k < entries@.len() ==> !is_gz_file(entries@[k]),
            r matches Some(i) ==> (i < entries@.len() && is_gz_file(entries@[i as int])
                && forall|k: int|
                0 <= k < entries@.len() && is_gz_file(entries@[k]) ==> (entries@[k].modified
                    <= entries@[i as int].modified && (k > i ==> entries@[k].modified
                    < entries@[i as int].modified))),
    {
        let mut best: Option<usize> = None;
        let mut i: usize = 0;
        while i < entries.len()
            invariant
                i <= entries@.len(),
                best is None <==> forall|k: int| 0 <= k < i ==> !is_gz_file(entries@[k]),
                best matches Some(b) ==> (b < i && is_gz_file(entries@[b as int]) && forall|k: int|
                    0 <= k < i && is_gz_file(entries@[k]) ==> (entries@[k].modified
                        <= entries@[b as int].modified && (k > b ==> entries@[k].modified
                        < entries@[b as int].modified))),
            decreases entries@.len() - i,
        {
            if entries[i].is_file && ends_with_gz(entries[i].file_name.as_str()) {
                match best {
                    Some(b) => {
                        if entries[i].modified >= entries[b].modified {
                            best = Some(i);
                        }
                    },
                    None => {
                        best = Some(i);
                    },
                }
            }
            i += 1;
        }
        best
    }
}

/// The decimal digit of `d`.
pub open spec fn digit_char(d: nat) -> char {
    if d == 0 {
        '0'
    } else if d == 1 {
        '1'
    } else if d == 2 {
        '2'
    } else if d == 3 {
        '3'
    } else if d == 4 {
        '4'
    } else if d == 5 {
        '5'
    } else if d == 6 {
        '6'
    } else if d == 7 {
        '7'
    } else if d == 8 {
        '8'
    } else {
        '9'
    }
}

/// The decimal text of `n`, without leading zeros.
pub open spec fn decimal_of(n: nat) -> Seq<char>
    decreases n,
{
    if n < 10 {
        seq![digit_char(n)]
    } else {
        decimal_of(n / 10).push(digit_char(n % 10))
    }
}

fn digit_text(d: u64) -> (r: &'static str)
    requires
        d < 10,
    ensures
        r@ == seq![digit_char(d as nat)],
{
    proof {
        reveal_strlit("0");
        reveal_strlit("1");
        reveal_strlit("2");
        reveal_strlit("3");
        reveal_strlit("4");
        reveal_strlit("5");
        reveal_strlit("6");
        reveal_strlit("7");
        reveal_strlit("8");
        reveal_strlit("9");
    }
    if d == 0 {
        "0"
    } else if d == 1 {
        "1"
    } else if d == 2 {
        "2"
    } else if d == 3 {
        "3"
    } else if d == 4 {
        "4"
    } else if d == 5 {
        "5"
    } else if d == 6 {
        "6"
    } else if d == 7 {
        "7"
    } else if d == 8 {
        "8"
    } else {
        "9"
    }
}

/// The decimal text of `n`.
pub fn decimal_text(n: u64) -> (r: String)
    ensures
        r@ == decimal_of(n as nat),
{
    let mut m: u64 = n;
    let mut out = String::new();
    while m >= 10
        invariant
            decimal_of(n as nat) == decimal_of(m as nat) + out@,
        decreases m,
    {
        let mut next = String::from_str(digit_text(m % 10));
        next.append(out.as_str());
        assert(decimal_of(m as nat) == decimal_of((m / 10) as nat).push(digit_char((m % 10) as nat)));
        assert(decimal_of(m as nat) + out@ =~= decimal_of((m / 10) as nat) + next@);
        out = next;
        m = m / 10;
    }
    let mut result = String::from_str(digit_text(m));
    result.append(out.as_str());
    assert(decimal_of(m as nat) == seq![digit_char(m as nat)]);
    result
}

/// Name of the backup archive made at `unix_ts`.
pub open spec fn backup_name_of(unix_ts: nat) -> Seq<char> {
    "nodex_backup_"@ + decimal_of(unix_ts) + ".tar.gz"@
}

/// Number of leading `/` of a path.
pub open spec fn leading_slashes(s: Seq<char>) -> int
    decreases s.len(),
{
    if s.len() == 0 || s[0] != '/' {
        0
    } else {
        1 + leading_slashes(s.drop_first())
    }
}

proof fn lemma_leading_slashes(s: Seq<char>, k: int)
    requires
        0 <= k <= s.len(),
        forall|j: int| 0 <= j < k ==> s[j] == '/',
        k == s.len() || s[k] != '/',
    ensures
        leading_slashes(s) == k,
    decreases k,
{
    if k > 0 {
        lemma_leading_slashes(s.drop_first(), k - 1);
    }
}

impl UnixResourceManager {
    /// Name of the backup archive made at `unix_ts`.
    pub fn backup_file_name(unix_ts: u64) -> (r: String)
        ensures
            r@ == backup_name_of(unix_ts as nat),
    {
        let mut name = String::from_str("nodex_backup_");
        let digits = decimal_text(unix_ts);
        name.append(digits.as_str());
        name.append(".tar.gz");
        name
    }

    /// Where a backed-up path is kept inside the archive: the path without
    /// its leading slashes.
    pub fn archive_path(original: &str) -> (r: String)
        ensures
            r@ == original@.subrange(leading_slashes(original@), original@.len() as int),
    {
        let n = original.unicode_len();
        let mut k: usize = 0;
        while k < n && original.get_char(k) == '/'
            invariant
                k <= n,
                n == original@.len(),
                forall|j: int| 0 <= j < k ==> original@[j] == '/',
            decreases n - k,
        {
            k += 1;
        }
        proof {
            lemma_leading_slashes(original@, k as int);
        }
        String::from_str(original.substring_char(k, n))
    }
}

} // verus!

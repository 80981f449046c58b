//! Unix-side helpers of the supervisor: socket path conventions, systemd
//! socket activation, and the framing of descriptor hand-over.
use vstd::prelude::*;

verus! {

/// First descriptor that systemd passes to an activated process.
pub const DEFAULT_FD: i32 = 3;

/// Failures of taking a descriptor from systemd.
#[derive(Debug, Clone, Copy, PartialEq, Eq, Structural)]
pub enum GetFdError {
    ListenFdsError,
    ListenPidError,
    ListenPidMismatch { listen_pid: i32, current_pid: i32 },
    NoFileDescriptors,
}

/// Failure of deriving a path.
#[derive(Debug, Clone, Copy, PartialEq, Eq, Structural)]
pub enum PathError {
    NotFound,
}

/// A decimal digit.
pub open spec fn is_digit(c: char) -> bool {
    '0' <= c <= '9'
}

/// The value of a run of decimal digits.
pub open spec fn digits_value(s: Seq<char>) -> int
    decreases s.len(),
{
    if s.len() == 0 {
        0
    } else {
        digits_value(s.drop_last()) * 10 + ((s.last() as u32) as int - 48)
    }
}

/// The text has a leading sign.
pub open spec fn has_sign(s: Seq<char>) -> bool {
    s.len() > 0 && (s[0] == '-' || s[0] == '+')
}

/// The digits part of a number text: after any leading sign.
pub open spec fn number_body(s: Seq<char>) -> Seq<char> {
    if has_sign(s) {
        s.drop_first()
    } else {
        s
    }
}

/// Every character is a digit.
pub open spec fn all_digits(s: Seq<char>) -> bool {
    forall|i: int| 0 <= i < s.len() ==> is_digit(#[trigger] s[i])
}

/// The signed value of a number text.
pub open spec fn signed_value(s: Seq<char>) -> int {
    if s.len() > 0 && s[0] == '-' {
        -digits_value(number_body(s))
    } else {
        digits_value(number_body(s))
    }
}

/// The `i32` that a decimal text denotes, as Rust's integer parser reads it:
/// an optional `+` or `-`, then at least one digit, within range.
pub open spec fn i32_of_text(s: Seq<char>) -> Option<i32> {
    if number_body(s).len() == 0 || !all_digits(number_body(s)) {
        None
    } else if -2147483648 <= signed_value(s) <= 2147483647 {
        Some(signed_value(s) as i32)
    } else {
        None
    }
}

proof fn lemma_digits_nonneg(s: Seq<char>)
    requires
        forall|i: int| 0 <= i < s.len() ==> is_digit(#[trigger] s[i]),
    ensures
        digits_value(s) >= 0,
    decreases s.len(),
{
    if s.len() > 0 {
        lemma_digits_nonneg(s.drop_last());
    }
}

proof fn lemma_digits_grow(s: Seq<char>, k: int)
    requires
        0 <= k <= s.len(),
        forall|i: int| 0 <= i < s.len() ==> is_digit(#[trigger] s[i]),
    ensures
        digits_value(s) >= digits_value(s.subrange(0, k)),
    decreases s.len(),
{
    if k < s.len() {
        let t = s.drop_last();
        assert(t.subrange(0, k) == s.subrange(0, k));
        lemma_digits_grow(t, k);
        lemma_digits_nonneg(t);
    } else {
        assert(s.subrange(0, k) == s);
    }
}

/// Parses a decimal `i32`: an optional sign, then digits, within range.
pub fn parse_i32(s: &str) -> (r: Option<i32>)
    ensures
        r == i32_of_text(s@),
{
    let n = s.unicode_len();
    let mut start: usize = 0;
    let mut negative = false;
    if n > 0 && (s.get_char(0) == '-' || s.get_char(0) == '+') {
        negative = s.get_char(0) == '-';
        start = 1;
    }
    let ghost body = number_body(s@);
    assert(body =~= s@.subrange(start as int, n as int));
    assert((start == 1) == (s@.len() > 0 && (s@[0] == '-' || s@[0] == '+')));
    assert(negative == (s@.len() > 0 && s@[0] == '-'));
    if start == n {
        assert(body.len() == 0);
        return None;
    }
    let mut acc: i64 = 0;
    let mut i: usize = start;
    while i < n
        invariant
            start <= i <= n,
            n == s@.len(),
            body == s@.subrange(start as int, n as int),
            body == number_body(s@),
            negative == (s@.len() > 0 && s@[0] == '-'),
            forall|k: int| 0 <= k < i - start ==> is_digit(#[trigger] body[k]),
            acc == digits_value(body.subrange(0, i - start)),
            0 <= acc <= 2147483648,
        decreases n - i,
    {
        let c = s.get_char(i);
        if !('0' <= c && c <= '9') {
            assert(!is_digit(body[i - start]));
            assert(!all_digits(body));
            return None;
        }
        let d = (c as u32 - 48) as i64;
        assert(body.subrange(0, i + 1 - start).drop_last() == body.subrange(0, i - start));
        acc = acc * 10 + d;
        i += 1;
        assert(acc == digits_value(body.subrange(0, i - start)));
        if acc > 2147483648 {
            proof {
                if all_digits(body) {
                    lemma_digits_grow(body, i - start);
                }
            }
            return None;
        }
    }
    assert(body.subrange(0, n - start) == body);
    let v: i64 = if negative {
        -acc
    } else {
        acc
    };
    if v < -2147483648 || v > 2147483647 {
        return None;
    }
    Some(v as i32)
}

/// The number an optional variable's text denotes.
pub open spec fn var_number(v: Option<&str>) -> Option<i32> {
    match v {
        Some(s) => i32_of_text(s@),
        None => None,
    }
}

/// The descriptor systemd passed, given `LISTEN_FDS`, `LISTEN_PID` and this
/// process's id: both variables must be numbers, the pid ours and at least
/// one descriptor passed.
pub fn get_fd_from_systemd(listen_fds: Option<&str>, listen_pid: Option<&str>, current_pid: i32) -> (r:
    Result<i32, GetFdError>)
    ensures
        var_number(listen_fds) is None ==> r == Err::<i32, GetFdError>(GetFdError::ListenFdsError),
        var_number(listen_fds) is Some && var_number(listen_pid) is None ==> r == Err::<
            i32,
            GetFdError,
        >(GetFdError::ListenPidError),
        var_number(listen_fds) matches Some(fds) ==> (var_number(listen_pid) matches Some(pid) ==> (
        if pid != current_pid {
            r == Err::<i32, GetFdError>(
                GetFdError::ListenPidMismatch { listen_pid: pid, current_pid },
            )
        } else if fds <= 0 {
            r == Err::<i32, GetFdError>(GetFdError::NoFileDescriptors)
        } else {
            r == Ok::<i32, GetFdError>(DEFAULT_FD)
        })),
{
    let fds = match listen_fds {
        Some(s) => parse_i32(s),
        None => None,
    };
    assert(fds == var_number(listen_fds));
    let fds = match fds {
        Some(n) => n,
        None => return Err(GetFdError::ListenFdsError),
    };
    let pid = match listen_pid {
        Some(s) => parse_i32(s),
        None => None,
    };
    assert(pid == var_number(listen_pid));
    let pid = match pid {
        Some(n) => n,
        None => return Err(GetFdError::ListenPidError),
    };
    if pid != current_pid {
        Err(GetFdError::ListenPidMismatch { listen_pid: pid, current_pid })
    } else if fds <= 0 {
        Err(GetFdError::NoFileDescriptors)
    } else {
        Ok(DEFAULT_FD)
    }
}

/// The one data byte sent with a descriptor hand-over: `0` when a
/// descriptor follows, `1` when none does.
pub fn fd_marker(fd: Option<i32>) -> (r: u8)
    ensures
        fd is Some ==> r == 0,
        fd is None ==> r == 1,
{
    match fd {
        Some(_) => 0,
        None => 1,
    }
}

/// Index of the last `/` of a path, or -1.
pub open spec fn last_slash(s: Seq<char>) -> int
    decreases s.len(),
{
    if s.len() == 0 {
        -1
    } else if s.last() == '/' {
        s.len() - 1
    } else {
        last_slash(s.drop_last())
    }
}

/// The last component of a path.
pub open spec fn base_name(s: Seq<char>) -> Seq<char> {
    s.subrange(last_slash(s) + 1, s.len() as int)
}

proof fn lemma_last_slash_bounds(s: Seq<char>)
    ensures
        -1 <= last_slash(s) < s.len(),
        last_slash(s) >= 0 ==> s[last_slash(s)] == '/',
        forall|k: int| last_slash(s) < k < s.len() ==> s[k] != '/',
    decreases s.len(),
{
    if s.len() > 0 && s.last() != '/' {
        let t = s.drop_last();
        lemma_last_slash_bounds(t);
        assert forall|k: int| last_slash(s) < k < s.len() implies s[k] != '/' by {
            if k < s.len() - 1 {
                assert(s[k] == t[k]);
            }
        }
    }
}

/// A path without its trailing slashes and trailing `.` parts (`a/./` is
/// `a`), as path components read it.
pub open spec fn trim_trailing_parts(s: Seq<char>) -> Seq<char>
    decreases s.len(),
{
    if s.len() > 0 && s.last() == '/' {
        trim_trailing_parts(s.drop_last())
    } else if s.len() >= 2 && s.last() == '.' && s[s.len() - 2] == '/' {
        trim_trailing_parts(s.drop_last())
    } else {
        s
    }
}

/// The meta socket beside a socket path: same directory, name prefixed with
/// `meta_`; trailing slashes and trailing `.` parts are ignored. Fails when
/// the path has no proper last component (empty, `.` or `..`).
#[verifier::rlimit(40)]
pub fn convention_meta_uds_path(uds: &str) -> (r: Result<String, PathError>)
    ensures
        r matches Ok(p) ==> p@ == trim_trailing_parts(uds@).subrange(
            0,
            last_slash(trim_trailing_parts(uds@)) + 1,
        ) + "meta_"@ + base_name(trim_trailing_parts(uds@)),
        r is Err <==> (base_name(trim_trailing_parts(uds@)).len() == 0 || base_name(
            trim_trailing_parts(uds@),
        ) == "."@ || base_name(trim_trailing_parts(uds@)) == ".."@),
{
    let mut e: usize = uds.unicode_len();
    assert(uds@.subrange(0, e as int) == uds@);
    while e > 0 && (uds.get_char(e - 1) == '/' || (e >= 2 && uds.get_char(e - 1) == '.'
        && uds.get_char(e - 2) == '/'))
        invariant
            e <= uds@.len(),
            trim_trailing_parts(uds@.subrange(0, e as int)) == trim_trailing_parts(uds@),
        decreases e,
    {
        assert(uds@.subrange(0, e as int).drop_last() == uds@.subrange(0, e - 1));
        e -= 1;
    }
    assert(trim_trailing_parts(uds@.subrange(0, e as int)) == uds@.subrange(0, e as int));
    let trimmed = uds.substring_char(0, e);
    meta_path_in(trimmed)
}

#[verifier::rlimit(40)]
fn meta_path_in(uds: &str) -> (r: Result<String, PathError>)
    ensures
        r matches Ok(p) ==> p@ == uds@.subrange(0, last_slash(uds@) + 1) + "meta_"@ + base_name(
            uds@,
        ),
        r is Err <==> (base_name(uds@).len() == 0 || base_name(uds@) == "."@ || base_name(uds@)
            == ".."@),
{
    let n = uds.unicode_len();
    let mut k: usize = n;
    proof {
        lemma_last_slash_bounds(uds@);
    }
    while k > 0 && uds.get_char(k - 1) != '/'
        invariant
            n == uds@.len(),
            k <= n,
            forall|m: int| k <= m < n ==> uds@[m] != '/',
            last_slash(uds@) < k,
            last_slash(uds@) >= 0 ==> uds@[last_slash(uds@)] == '/',
        decreases k,
    {
        k -= 1;
    }
    assert(last_slash(uds@) + 1 == k) by {
        lemma_last_slash_bounds(uds@);
        if last_slash(uds@) + 1 < k {
            assert(uds@[k - 1] != '/');
        }
    }
    let base = uds.substring_char(k, n);
    if base.unicode_len() == 0 || crate::text::same_text(base, ".") || crate::text::same_text(base, "..") {
        return Err(PathError::NotFound);
    }
    let mut out = String::from_str(uds.substring_char(0, k));
    out.append("meta_");
    out.append(base);
    Ok(out)
}

/// The kinds of file-system events that the socket watcher tells apart.
#[derive(Debug, Clone, Copy, PartialEq, Eq, Structural)]
pub enum WatchEventKind {
    CreateFile,
    ModifyOwnership,
    CloseWrite,
    Other,
}

/// Whether an event shows that the watched file is ready: it was created,
/// its owner changed, or a writer closed it, and the event names the file.
pub fn is_file_ready_event(kind: WatchEventKind, names_watched_path: bool) -> (r: bool)
    ensures
        r == (names_watched_path && kind != WatchEventKind::Other),
{
    names_watched_path && match kind {
        WatchEventKind::CreateFile => true,
        WatchEventKind::ModifyOwnership => true,
        WatchEventKind::CloseWrite => true,
        WatchEventKind::Other => false,
    }
}

} // verus!

//! The remote side of a sync: where the shared files lie, how a request
//! is authorised, what a response means, and who holds the advisory lock.

use crate::errors::{AppError, AppErrorView};
use crate::text::{chars_of, str_eq, trim, trimmed};
use base64::Engine;
use vstd::prelude::*;

verus! {

/// Name of the snapshot of the store under the remote root.
pub const REMOTE_DB_NAME: &'static str = "taskreminder.db";

/// Name of the lock file under the remote root.
pub const LOCK_FILE_NAME: &'static str = "taskreminder.lock";

/// Seconds after which a lock that was not released counts as abandoned.
pub const LOCK_TTL_SECONDS: i64 = 120;

/// What the standard base64 engine of the `base64` crate, with padding,
/// returns for the UTF-8 bytes of a text.
pub uninterp spec fn base64_standard(text: Seq<char>) -> Seq<char>;

/// `Engine::encode` of `base64::engine::general_purpose::STANDARD`.
#[verifier::external_body]
pub(crate) fn base64_encode(text: &str) -> (r: String)
    ensures
        r@ == base64_standard(text@),
{
    base64::engine::general_purpose::STANDARD.encode(text)
}

/// Number of characters at the end of a text that are the given one.
pub open spec fn trailing_run(s: Seq<char>, c: char) -> nat
    decreases s.len(),
{
    if s.len() > 0 && s.last() == c {
        1 + trailing_run(s.drop_last(), c)
    } else {
        0
    }
}

/// Number of characters at the start of a text that are the given one.
pub open spec fn leading_run(s: Seq<char>, c: char) -> nat
    decreases s.len(),
{
    if s.len() > 0 && s[0] == c {
        1 + leading_run(s.drop_first(), c)
    } else {
        0
    }
}

/// A text without the given character at its end, however often it stands
/// there.
pub open spec fn without_trailing(s: Seq<char>, c: char) -> Seq<char> {
    s.take(s.len() - trailing_run(s, c))
}

/// A text without the given character at its start, however often it
/// stands there.
pub open spec fn without_leading(s: Seq<char>, c: char) -> Seq<char> {
    s.skip(leading_run(s, c) as int)
}

/// A run of one character at the end of a text, with another character
/// before it, is the whole trailing run.
proof fn lemma_trailing_run_is(s: Seq<char>, c: char, n: int)
    requires
        0 <= n <= s.len(),
        forall|k: int| s.len() - n <= k < s.len() ==> s[k] == c,
        n < s.len() ==> s[s.len() - n - 1] != c,
    ensures
        trailing_run(s, c) == n,
    decreases n,
{
    if n > 0 {
        let t = s.drop_last();
        assert(s.last() == c);
        assert forall|k: int| t.len() - (n - 1) <= k < t.len() implies t[k] == c by {
            assert(t[k] == s[k]);
        }
        if n - 1 < t.len() {
            assert(t[t.len() - (n - 1) - 1] == s[s.len() - n - 1]);
        }
        lemma_trailing_run_is(t, c, n - 1);
    }
}

/// A run of one character at the start of a text, with another character
/// behind it, is the whole leading run.
proof fn lemma_leading_run_is(s: Seq<char>, c: char, n: int)
    requires
        0 <= n <= s.len(),
        forall|k: int| 0 <= k < n ==> s[k] == c,
        n < s.len() ==> s[n] != c,
    ensures
        leading_run(s, c) == n,
    decreases n,
{
    if n > 0 {
        let t = s.drop_first();
        assert forall|k: int| 0 <= k < n - 1 implies t[k] == c by {
            assert(t[k] == s[k + 1]);
        }
        if n - 1 < t.len() {
            assert(t[n - 1] == s[n]);
        }
        lemma_leading_run_is(t, c, n - 1);
    }
}

/// Removes every occurrence of a character from the end of a text.
pub fn strip_trailing(s: &str, c: char) -> (r: &str)
    ensures
        r@ == without_trailing(s@, c),
{
    let v = chars_of(s);
    let n = v.len();
    let mut j: usize = n;
    while j > 0 && v[j - 1] == c
        invariant
            n == v@.len(),
            j <= n,
            forall|k: int| j <= k < n ==> v@[k] == c,
        decreases j,
    {
        j -= 1;
    }
    proof {
        lemma_trailing_run_is(v@, c, (n - j) as int);
        assert(v@.subrange(0, j as int) =~= v@.take(j as int));
    }
    s.substring_char(0, j)
}

/// Removes every occurrence of a character from the start of a text.
pub fn strip_leading(s: &str, c: char) -> (r: &str)
    ensures
        r@ == without_leading(s@, c),
{
    let v = chars_of(s);
    let n = v.len();
    let mut i: usize = 0;
    while i < n && v[i] == c
        invariant
            n == v@.len(),
            i <= n,
            forall|k: int| 0 <= k < i ==> v@[k] == c,
        decreases n - i,
    {
        i += 1;
    }
    proof {
        lemma_leading_run_is(v@, c, i as int);
        assert(v@.subrange(i as int, n as int) =~= v@.skip(i as int));
    }
    s.substring_char(i, n)
}

/// The address under which the shared files lie: the server's address
/// without whitespace around it and without slashes at its end, followed by
/// the root path, which begins with one slash and ends with none. A blank
/// root path adds nothing.
pub open spec fn base_url(url: Seq<char>, root: Seq<char>) -> Seq<char> {
    let base = without_trailing(trimmed(url), '/');
    let root = trimmed(root);
    if root.len() == 0 {
        base
    } else if root[0] == '/' {
        base + without_trailing(root, '/')
    } else {
        base + without_trailing(seq!['/'] + root, '/')
    }
}

/// Joins the server's address and the root path.
pub fn build_base_url(url: &str, root: &str) -> (r: String)
    ensures
        r@ == base_url(url@, root@),
{
    let mut base = String::from_str(strip_trailing(trim(url), '/'));
    let root = trim(root);
    if root.unicode_len() > 0 {
        if root.get_char(0) == '/' {
            base.append(strip_trailing(root, '/'));
        } else {
            let mut rooted = String::from_str("/");
            proof {
                reveal_strlit("/");
                assert("/"@ =~= seq!['/']);
            }
            rooted.append(root);
            base.append(strip_trailing(rooted.as_str(), '/'));
        }
    }
    base
}

/// The address of a file under a base address: the base without slashes at
/// its end, one slash, and the name without slashes at its start. An empty
/// name gives the base itself.
pub open spec fn file_url(base: Seq<char>, name: Seq<char>) -> Seq<char> {
    if name.len() == 0 {
        base
    } else {
        without_trailing(base, '/') + seq!['/'] + without_leading(name, '/')
    }
}

/// Joins a base address and the name of a file.
pub fn build_url(base: &str, name: &str) -> (r: String)
    ensures
        r@ == file_url(base@, name@),
{
    if name.unicode_len() == 0 {
        return String::from_str(base);
    }
    let mut r = String::from_str(strip_trailing(base, '/'));
    proof {
        reveal_strlit("/");
        assert("/"@ =~= seq!['/']);
    }
    r.append("/");
    r.append(strip_leading(name, '/'));
    r
}

/// The value of the `Authorization` header: none for a blank user name,
/// else the word `Basic` and the base64 form of user name, colon and
/// password.
pub open spec fn auth_header(username: Seq<char>, password: Seq<char>) -> Option<Seq<char>> {
    if trimmed(username).len() == 0 {
        None
    } else {
        Some("Basic "@ + base64_standard(username + ":"@ + password))
    }
}

/// Builds the value of the `Authorization` header.
pub fn build_auth_header(username: &str, password: &str) -> (r: Option<String>)
    ensures
        match auth_header(username@, password@) {
            Some(h) => r matches Some(s) && s@ == h,
            None => r is None,
        },
{
    if trim(username).unicode_len() == 0 {
        return None;
    }
    let mut credentials = String::from_str(username);
    credentials.append(":");
    credentials.append(password);
    let mut header = String::from_str("Basic ");
    header.append(base64_encode(credentials.as_str()).as_str());
    Some(header)
}

/// Whether a status code reports success: 200 to 299.
pub open spec fn status_ok(code: u16) -> bool {
    200 <= code <= 299
}

/// Whether a status code reports success.
pub fn is_success(code: u16) -> (r: bool)
    ensures
        r == status_ok(code),
{
    200 <= code && code <= 299
}

/// Whether the answer to a `HEAD` request says that the file exists: only
/// the code 200 does.
pub fn exists_from_status(code: u16) -> (r: bool)
    ensures
        r == (code == 200),
{
    code == 200
}

/// An error of the sync, with a message and the status that the server
/// answered with as it prints.
fn sync_failure(message: &str, status: &str) -> (e: AppError)
    ensures
        e@ == AppErrorView::Sync(message@ + status@),
{
    let mut m = String::from_str(message);
    m.append(status);
    AppError::Sync(m)
}

/// What a connection test reports for an answer: success for the codes 207
/// and 200, a failed authentication for 401 and 403, and a failure with the
/// status for every other code.
pub open spec fn connection_verdict(code: u16, status: Seq<char>) -> (bool, Seq<char>) {
    if code == 207 || code == 200 {
        (true, "连接成功"@)
    } else if code == 401 || code == 403 {
        (false, "认证失败"@)
    } else {
        (false, "连接失败，状态码: "@ + status)
    }
}

/// Judges the answer to the request that tests a connection; `status` is
/// the status as it prints.
pub fn connection_test_result(code: u16, status: &str) -> (r: (bool, String))
    ensures
        (r.0, r.1@) == connection_verdict(code, status@),
{
    if code == 207 || code == 200 {
        (true, String::from_str("连接成功"))
    } else if code == 401 || code == 403 {
        (false, String::from_str("认证失败"))
    } else {
        let mut m = String::from_str("连接失败，状态码: ");
        m.append(status);
        (false, m)
    }
}

/// Judges the answer to a download: any code but a success is an error
/// that names the status.
pub fn download_result(code: u16, status: &str) -> (r: Result<(), AppError>)
    ensures
        status_ok(code) ==> r is Ok,
        !status_ok(code) ==> (r matches Err(e) && e@ == AppErrorView::Sync(
            "下载失败，状态码: "@ + status@,
        )),
{
    if is_success(code) {
        Ok(())
    } else {
        Err(sync_failure("下载失败，状态码: ", status))
    }
}

/// Judges the answer to an upload: any code but a success is an error that
/// names the status.
pub fn upload_result(code: u16, status: &str) -> (r: Result<(), AppError>)
    ensures
        status_ok(code) ==> r is Ok,
        !status_ok(code) ==> (r matches Err(e) && e@ == AppErrorView::Sync(
            "上传失败，状态码: "@ + status@,
        )),
{
    if is_success(code) {
        Ok(())
    } else {
        Err(sync_failure("上传失败，状态码: ", status))
    }
}

/// The record in the lock file: who holds the lock and until when. The
/// expiry is a time in milliseconds since 1970; a value too small for that
/// is read as seconds.
#[derive(Debug, PartialEq, Eq)]
pub struct LockInfo {
    pub device_id: String,
    pub expires_at: i64,
}

/// The mathematical value of a [`LockInfo`].
pub struct LockView {
    pub device_id: Seq<char>,
    pub expires_at: int,
}

impl View for LockInfo {
    type V = LockView;

    open spec fn view(&self) -> LockView {
        LockView { device_id: self.device_id@, expires_at: self.expires_at as int }
    }
}

impl Clone for LockInfo {
    fn clone(&self) -> (r: LockInfo)
        ensures
            r == *self,
    {
        LockInfo { device_id: self.device_id.clone(), expires_at: self.expires_at }
    }
}

impl LockView {
    /// The expiry in milliseconds: a value above a million million is in
    /// milliseconds already, any other is in seconds. The result stays
    /// within the 64-bit integers.
    pub open spec fn expires_at_millis(self) -> int {
        if self.expires_at > 1_000_000_000_000 {
            self.expires_at
        } else if self.expires_at * 1000 < i64::MIN {
            i64::MIN as int
        } else {
            self.expires_at * 1000
        }
    }

    /// Whether the lock has run out at a time in milliseconds.
    pub open spec fn expired_at(self, now_millis: int) -> bool {
        self.expires_at_millis() <= now_millis
    }

    /// Whether the lock keeps a device out at a time: it has not run out
    /// and another device holds it.
    pub open spec fn blocks(self, device_id: Seq<char>, now_millis: int) -> bool {
        !self.expired_at(now_millis) && self.device_id != device_id
    }
}

impl LockInfo {
    /// A fresh lock for a device, taken at a time in milliseconds: it runs
    /// out 120 seconds later.
    pub fn new(device_id: &str, now_millis: i64) -> (r: LockInfo)
        requires
            now_millis + LOCK_TTL_SECONDS * 1000 <= i64::MAX,
        ensures
            r@ == (LockView {
                device_id: device_id@,
                expires_at: now_millis + LOCK_TTL_SECONDS * 1000,
            }),
    {
        LockInfo {
            device_id: String::from_str(device_id),
            expires_at: now_millis + LOCK_TTL_SECONDS * 1000,
        }
    }

    /// The expiry in milliseconds.
    pub fn expires_at_millis(&self) -> (r: i64)
        ensures
            r == self@.expires_at_millis(),
    {
        if self.expires_at > 1_000_000_000_000 {
            self.expires_at
        } else if self.expires_at < i64::MIN / 1000 {
            i64::MIN
        } else {
            self.expires_at * 1000
        }
    }

    /// Whether the lock has run out at a time in milliseconds.
    pub fn is_expired(&self, now_millis: i64) -> (r: bool)
        ensures
            r == self@.expired_at(now_millis as int),
    {
        self.expires_at_millis() <= now_millis
    }
}

/// The lock that the answer to the request for the lock file holds. There
/// is none where the request could not be sent, where the server answered
/// with anything but a success, or where the body could not be read as a
/// lock.
pub fn lock_from_response(sent: bool, code: u16, body: Option<LockInfo>) -> (r: Option<LockInfo>)
    ensures
        r == if sent && status_ok(code) {
            body
        } else {
            None
        },
{
    if !sent {
        return None;
    }
    if code == 404 {
        return None;
    }
    if !is_success(code) {
        return None;
    }
    body
}

/// Whether a device may take the lock at a time: it may unless the lock
/// file holds a lock that has not run out and belongs to another device.
pub fn may_acquire(existing: &Option<LockInfo>, device_id: &str, now_millis: i64) -> (r: bool)
    ensures
        r == !(existing matches Some(l) && l@.blocks(device_id@, now_millis as int)),
{
    match existing {
        Some(l) => {
            if !l.is_expired(now_millis) && !str_eq(l.device_id.as_str(), device_id) {
                false
            } else {
                true
            }
        },
        None => true,
    }
}

/// Judges the answer to the request that writes the lock file: a success
/// means that the lock is held, any other code is an error that names the
/// status.
pub fn lock_write_result(code: u16, status: &str) -> (r: Result<bool, AppError>)
    ensures
        status_ok(code) ==> r == Ok::<bool, AppError>(true),
        !status_ok(code) ==> (r matches Err(e) && e@ == AppErrorView::Sync(
            "写入锁失败，状态码: "@ + status@,
        )),
{
    if is_success(code) {
        Ok(true)
    } else {
        Err(sync_failure("写入锁失败，状态码: ", status))
    }
}

/// A lock that has run out keeps nobody out, and a lock keeps its own
/// device out at no time.
pub proof fn lemma_lock_reclaim(lock: LockView, device_id: Seq<char>, now_millis: int)
    ensures
        lock.expired_at(now_millis) ==> !lock.blocks(device_id, now_millis),
        !lock.blocks(lock.device_id, now_millis),
{
}

/// A fresh lock keeps every other device out for 120 seconds and no
/// longer.
pub proof fn lemma_fresh_lock_window(lock: LockView, taken_at: int, now_millis: int, other: Seq<char>)
    requires
        lock.expires_at == taken_at + LOCK_TTL_SECONDS * 1000,
        taken_at > 1_000_000_000_000,
        other != lock.device_id,
    ensures
        lock.blocks(other, now_millis) <==> now_millis < taken_at + 120_000,
{
}

} // verus!

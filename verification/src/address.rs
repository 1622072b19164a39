//! The IBus address file: where `ibus-daemon` listens, and the D-Bus address
//! string that reaches it.
use vstd::prelude::*;

use crate::error::Error;
use crate::strings::{decimal, push_decimal, string_push};

verus! {

/// Where the IBus daemon listens, as its address file describes it.
#[derive(Debug)]
pub struct Address {
    /// TCP host, if any.
    pub host: String,
    /// TCP port, 0 when unset.
    pub port: u32,
    /// Unix socket path; an abstract socket name starts with `@`.
    pub socket_path: String,
}

/// The mathematical content of an [`Address`].
pub struct AddressModel {
    pub host: Seq<char>,
    pub port: u32,
    pub socket_path: Seq<char>,
}

impl View for Address {
    type V = AddressModel;

    open spec fn view(&self) -> AddressModel {
        AddressModel { host: self.host@, port: self.port, socket_path: self.socket_path@ }
    }
}

/// Why a string is not a `u32` in decimal.
#[derive(Debug, Clone, Copy, PartialEq, Eq, Structural)]
pub enum IntErrorKind {
    /// The string is empty.
    Empty,
    /// A character is not a decimal digit.
    InvalidDigit,
    /// The number exceeds `u32::MAX`.
    PosOverflow,
}

/// Whether a character has the Unicode `White_Space` property.
pub open spec fn is_whitespace(c: char) -> bool {
    let u = c as u32;
    ||| 9 <= u <= 13
    ||| u == 32
    ||| u == 0x85
    ||| u == 0xa0
    ||| u == 0x1680
    ||| 0x2000 <= u <= 0x200a
    ||| u == 0x2028
    ||| u == 0x2029
    ||| u == 0x202f
    ||| u == 0x205f
    ||| u == 0x3000
}

/// The string without its leading whitespace.
pub open spec fn trim_start(s: Seq<char>) -> Seq<char>
    decreases s.len(),
{
    if s.len() > 0 && is_whitespace(s[0]) {
        trim_start(s.drop_first())
    } else {
        s
    }
}

/// The string without its trailing whitespace.
pub open spec fn trim_end(s: Seq<char>) -> Seq<char>
    decreases s.len(),
{
    if s.len() > 0 && is_whitespace(s.last()) {
        trim_end(s.drop_last())
    } else {
        s
    }
}

/// The string without leading and trailing whitespace.
pub open spec fn trim(s: Seq<char>) -> Seq<char> {
    trim_end(trim_start(s))
}

/// Whether `s` starts with `p`.
pub open spec fn has_prefix(s: Seq<char>, p: Seq<char>) -> bool {
    p.len() <= s.len() && s.take(p.len() as int) == p
}

/// Whether a character is an ASCII decimal digit.
pub open spec fn is_digit(c: char) -> bool {
    '0' <= c && c <= '9'
}

/// The value of a decimal digit.
pub open spec fn digit_value(c: char) -> nat {
    (c as u32 - '0' as u32) as nat
}

/// Reading digits from position `i` on, with `acc` read so far: the first
/// character that is no digit is an invalid digit; a value beyond `u32::MAX`
/// overflows.
pub open spec fn scan_digits(s: Seq<char>, i: int, acc: nat) -> Result<u32, IntErrorKind>
    decreases s.len() - i,
{
    if i >= s.len() {
        Ok(acc as u32)
    } else if !is_digit(s[i]) {
        Err(IntErrorKind::InvalidDigit)
    } else {
        let v = acc * 10 + digit_value(s[i]);
        if v > u32::MAX {
            Err(IntErrorKind::PosOverflow)
        } else {
            scan_digits(s, i + 1, v)
        }
    }
}

/// A `u32` written in decimal with an optional leading `+`, as `str::parse`
/// reads it.
pub open spec fn parse_u32(s: Seq<char>) -> Result<u32, IntErrorKind> {
    if s.len() == 0 {
        Err(IntErrorKind::Empty)
    } else if s.len() == 1 && (s[0] == '+' || s[0] == '-') {
        Err(IntErrorKind::InvalidDigit)
    } else if s[0] == '+' {
        scan_digits(s, 1, 0)
    } else {
        scan_digits(s, 0, 0)
    }
}

/// The message of a failed integer parse.
pub open spec fn int_error_message(k: IntErrorKind) -> Seq<char> {
    match k {
        IntErrorKind::Empty => "cannot parse integer from empty string"@,
        IntErrorKind::InvalidDigit => "invalid digit found in string"@,
        IntErrorKind::PosOverflow => "number too large to fit in target type"@,
    }
}

/// The position of the first comma in `s`, or its length when it has none.
pub open spec fn first_comma(s: Seq<char>) -> int
    decreases s.len(),
{
    if s.len() == 0 {
        0
    } else if s[0] == ',' {
        0
    } else {
        1 + first_comma(s.drop_first())
    }
}

/// The socket that comma-separated D-Bus address parameters name, wherever
/// it stands among them: the first parameter that is `path=` or `abstract=`
/// decides, giving the path, or the abstract name marked with a leading `@`;
/// `None` when no parameter names a socket.
pub open spec fn socket_param(ps: Seq<char>) -> Option<Seq<char>>
    decreases ps.len(),
{
    let k = first_comma(ps);
    let p = ps.take(k);
    if has_prefix(p, "path="@) {
        Some(p.skip(5))
    } else if has_prefix(p, "abstract="@) {
        Some(seq!['@'] + p.skip(9))
    } else if 0 <= k < ps.len() {
        socket_param(ps.skip(k + 1))
    } else {
        None
    }
}

/// The socket path that an `--address=` value names: for a `unix:` address,
/// the socket that its parameters name in any order (an abstract name
/// marked with a leading `@`), or everything after `unix:` when no
/// parameter names one; any other value as it stands.
pub open spec fn socket_of(v: Seq<char>) -> Seq<char> {
    if has_prefix(v, "unix:"@) {
        match socket_param(v.skip(5)) {
            Some(s) => s,
            None => v.skip(5),
        }
    } else {
        v
    }
}

/// An address with nothing set.
pub open spec fn empty_address() -> AddressModel {
    AddressModel { host: Seq::empty(), port: 0, socket_path: Seq::empty() }
}

/// One line of the address file applied to what earlier lines set: after
/// trimming, `--host=`, `--port=` and `--address=` set the host, the port and
/// the socket path; a port that is no `u32` is an error; other lines change
/// nothing.
pub open spec fn apply_line(a: AddressModel, line: Seq<char>) -> Result<AddressModel, Seq<char>> {
    let l = trim(line);
    if has_prefix(l, "--host="@) {
        Ok(AddressModel { host: l.skip(7), ..a })
    } else if has_prefix(l, "--port="@) {
        match parse_u32(l.skip(7)) {
            Ok(p) => Ok(AddressModel { port: p, ..a }),
            Err(k) => Err("Invalid port: "@ + int_error_message(k)),
        }
    } else if has_prefix(l, "--address="@) {
        Ok(AddressModel { socket_path: socket_of(l.skip(10)), ..a })
    } else {
        Ok(a)
    }
}

/// The position of the first newline at or after `i`, or the length.
pub open spec fn next_newline(s: Seq<char>, i: int) -> int
    decreases s.len() - i,
{
    if i >= s.len() {
        s.len() as int
    } else if s[i] == '\n' {
        i
    } else {
        next_newline(s, i + 1)
    }
}

/// The lines of `s` from position `i` on (split at each newline), applied in
/// order; the first error stops.
pub open spec fn apply_lines(a: AddressModel, s: Seq<char>, i: int) -> Result<AddressModel, Seq<char>>
    decreases s.len() - i,
{
    let k = next_newline(s, i);
    if i > s.len() || k < i {
        Ok(a)
    } else {
        match apply_line(a, s.subrange(i, k)) {
            Ok(b) => if k >= s.len() {
                Ok(b)
            } else {
                apply_lines(b, s, k + 1)
            },
            Err(m) => Err(m),
        }
    }
}

/// What an address file says: its lines applied to an empty address; an
/// error when nothing at all was set.
pub open spec fn parsed_address(s: Seq<char>) -> Result<AddressModel, Seq<char>> {
    match apply_lines(empty_address(), s, 0) {
        Ok(a) => if a.socket_path.len() == 0 && a.port == 0 && a.host.len() == 0 {
            Err("No valid address found in IBus address file"@)
        } else {
            Ok(a)
        },
        Err(m) => Err(m),
    }
}

/// The D-Bus address that reaches an IBus address: the abstract or path Unix
/// socket when a socket path is set, TCP host and port otherwise.
pub open spec fn connect_string(a: AddressModel) -> Seq<char> {
    if a.socket_path.len() > 0 {
        if a.socket_path[0] == '@' {
            "unix:abstract="@ + a.socket_path.drop_first()
        } else {
            "unix:path="@ + a.socket_path
        }
    } else {
        "tcp:host="@ + a.host + ",port="@ + decimal(a.port as nat)
    }
}

proof fn lemma_next_newline(s: Seq<char>, i: int)
    requires
        0 <= i <= s.len(),
    ensures
        i <= next_newline(s, i) <= s.len(),
        next_newline(s, i) < s.len() ==> s[next_newline(s, i)] == '\n',
        forall|j: int| i <= j < next_newline(s, i) ==> s[j] != '\n',
    decreases s.len() - i,
{
    if i < s.len() && s[i] != '\n' {
        lemma_next_newline(s, i + 1);
    }
}

/// The characters of a string.
pub fn chars_of(s: &str) -> (v: Vec<char>)
    ensures
        v@ == s@,
{
    let n = s.unicode_len();
    let mut v: Vec<char> = Vec::new();
    let mut i: usize = 0;
    while i < n
        invariant
            i <= n,
            n == s@.len(),
            v@ == s@.take(i as int),
        decreases n - i,
    {
        v.push(s.get_char(i));
        i = i + 1;
        assert(v@ =~= s@.take(i as int));
    }
    assert(s@.take(n as int) =~= s@);
    v
}

/// The characters from `a` up to `b` as a string.
pub fn string_of(cs: &Vec<char>, a: usize, b: usize) -> (r: String)
    requires
        a <= b <= cs@.len(),
    ensures
        r@ == cs@.subrange(a as int, b as int),
{
    let mut r = String::new();
    let mut i = a;
    while i < b
        invariant
            a <= i <= b <= cs@.len(),
            r@ == cs@.subrange(a as int, i as int),
        decreases b - i,
    {
        string_push(&mut r, cs[i]);
        i = i + 1;
        assert(r@ =~= cs@.subrange(a as int, i as int));
    }
    r
}

/// Whether a character has the Unicode `White_Space` property.
pub fn is_whitespace_char(c: char) -> (b: bool)
    ensures
        b == is_whitespace(c),
{
    let u = c as u32;
    (9 <= u && u <= 13) || u == 32 || u == 0x85 || u == 0xa0 || u == 0x1680 || (0x2000 <= u && u
        <= 0x200a) || u == 0x2028 || u == 0x2029 || u == 0x202f || u == 0x205f || u == 0x3000
}

proof fn lemma_trim_start_step(s: Seq<char>, a: int, b: int)
    requires
        0 <= a < b <= s.len(),
        is_whitespace(s[a]),
    ensures
        trim_start(s.subrange(a, b)) == trim_start(s.subrange(a + 1, b)),
{
    assert(s.subrange(a, b).drop_first() =~= s.subrange(a + 1, b));
}

proof fn lemma_trim_end_step(s: Seq<char>, a: int, b: int)
    requires
        0 <= a < b <= s.len(),
        is_whitespace(s[b - 1]),
    ensures
        trim_end(s.subrange(a, b)) == trim_end(s.subrange(a, b - 1)),
{
    assert(s.subrange(a, b).drop_last() =~= s.subrange(a, b - 1));
}

/// The bounds of the characters from `lo` up to `hi` without leading and
/// trailing whitespace.
pub fn trim_bounds(cs: &Vec<char>, lo: usize, hi: usize) -> (r: (usize, usize))
    requires
        lo <= hi <= cs@.len(),
    ensures
        lo <= r.0 <= r.1 <= hi,
        cs@.subrange(r.0 as int, r.1 as int) == trim(cs@.subrange(lo as int, hi as int)),
{
    let mut a = lo;
    while a < hi && is_whitespace_char(cs[a])
        invariant
            lo <= a <= hi <= cs@.len(),
            trim_start(cs@.subrange(lo as int, hi as int)) == trim_start(cs@.subrange(a as int, hi as int)),
        decreases hi - a,
    {
        proof {
            lemma_trim_start_step(cs@, a as int, hi as int);
        }
        a = a + 1;
    }
    assert(trim_start(cs@.subrange(a as int, hi as int)) == cs@.subrange(a as int, hi as int));
    let mut b = hi;
    while b > a && is_whitespace_char(cs[b - 1])
        invariant
            lo <= a <= b <= hi <= cs@.len(),
            trim_end(cs@.subrange(a as int, hi as int)) == trim_end(cs@.subrange(a as int, b as int)),
        decreases b - a,
    {
        proof {
            lemma_trim_end_step(cs@, a as int, b as int);
        }
        b = b - 1;
    }
    assert(trim_end(cs@.subrange(a as int, b as int)) == cs@.subrange(a as int, b as int));
    (a, b)
}

/// Whether the characters from `a` up to `b` start with `p`.
pub fn has_prefix_at(cs: &Vec<char>, a: usize, b: usize, p: &str) -> (r: bool)
    requires
        a <= b <= cs@.len(),
    ensures
        r == has_prefix(cs@.subrange(a as int, b as int), p@),
{
    let n = p.unicode_len();
    if n > b - a {
        return false;
    }
    let mut k: usize = 0;
    while k < n
        invariant
            k <= n,
            n == p@.len(),
            n <= b - a,
            a <= b <= cs@.len(),
            forall|j: int| 0 <= j < k ==> cs@[a + j] == p@[j],
        decreases n - k,
    {
        if cs[a + k] != p.get_char(k) {
            assert(cs@.subrange(a as int, b as int).take(n as int)[k as int] != p@[k as int]);
            return false;
        }
        k = k + 1;
    }
    assert(cs@.subrange(a as int, b as int).take(n as int) =~= p@);
    true
}

/// The `u32` that the characters from `a` up to `b` write in decimal.
pub fn parse_u32_at(cs: &Vec<char>, a: usize, b: usize) -> (r: Result<u32, IntErrorKind>)
    requires
        a <= b <= cs@.len(),
    ensures
        r == parse_u32(cs@.subrange(a as int, b as int)),
{
    let ghost s = cs@.subrange(a as int, b as int);
    if a == b {
        return Err(IntErrorKind::Empty);
    }
    if b - a == 1 && (cs[a] == '+' || cs[a] == '-') {
        return Err(IntErrorKind::InvalidDigit);
    }
    let mut i = if cs[a] == '+' { a + 1 } else { a };
    let mut acc: u32 = 0;
    assert(parse_u32(s) == scan_digits(s, (i - a) as int, acc as nat));
    while i < b
        invariant
            a <= i <= b <= cs@.len(),
            s == cs@.subrange(a as int, b as int),
            parse_u32(s) == scan_digits(s, (i - a) as int, acc as nat),
        decreases b - i,
    {
        let c = cs[i];
        assert(s[(i - a) as int] == c);
        if !('0' <= c && c <= '9') {
            return Err(IntErrorKind::InvalidDigit);
        }
        let d = (c as u32) - ('0' as u32);
        if acc > 429496729 || (acc == 429496729 && d > 5) {
            return Err(IntErrorKind::PosOverflow);
        }
        acc = acc * 10 + d;
        i = i + 1;
    }
    Ok(acc)
}

/// The message of a failed integer parse.
pub fn int_error_text(k: IntErrorKind) -> (m: String)
    ensures
        m@ == int_error_message(k),
{
    match k {
        IntErrorKind::Empty => "cannot parse integer from empty string".to_owned(),
        IntErrorKind::InvalidDigit => "invalid digit found in string".to_owned(),
        IntErrorKind::PosOverflow => "number too large to fit in target type".to_owned(),
    }
}

/// The socket path that an `--address=` value names.
fn socket_from(v: &Vec<char>) -> (r: String)
    ensures
        r@ == socket_of(v@),
{
    let n = v.len();
    proof {
        reveal_strlit("unix:");
        reveal_strlit("path=");
        reveal_strlit("abstract=");
    }
    assert(v@.subrange(0, n as int) =~= v@);
    if !has_prefix_at(v, 0, n, "unix:") {
        return string_of(v, 0, n);
    }
    let mut i: usize = 5;
    loop
        invariant
            5 <= i <= n,
            n == v@.len(),
            socket_param(v@.skip(5)) == socket_param(v@.skip(i as int)),
            has_prefix(v@, "unix:"@),
        ensures
            socket_param(v@.skip(5)) is None,
        decreases n - i,
    {
        let mut k = i;
        while k < n && v[k] != ','
            invariant
                i <= k <= n,
                n == v@.len(),
                first_comma(v@.skip(i as int)) == (k - i) + first_comma(v@.skip(k as int)),
            decreases n - k,
        {
            assert(v@.skip(k as int).drop_first() =~= v@.skip(k as int + 1));
            k = k + 1;
        }
        proof {
            reveal_strlit("path=");
            reveal_strlit("abstract=");
        }
        let ghost ps = v@.skip(i as int);
        assert(first_comma(v@.skip(k as int)) == 0);
        assert(ps.take(k - i) =~= v@.subrange(i as int, k as int));
        if has_prefix_at(v, i, k, "path=") {
            let r = string_of(v, i + 5, k);
            assert(r@ =~= v@.subrange(i as int, k as int).skip(5));
            return r;
        }
        if has_prefix_at(v, i, k, "abstract=") {
            let mut r = String::new();
            string_push(&mut r, '@');
            let rest = string_of(v, i + 9, k);
            r.append(rest.as_str());
            assert(r@ =~= seq!['@'] + v@.subrange(i as int, k as int).skip(9));
            return r;
        }
        if k >= n {
            break;
        }
        assert(ps.skip(k - i + 1) =~= v@.skip(k as int + 1));
        i = k + 1;
    }
    let r = string_of(v, 5, n);
    assert(r@ =~= v@.skip(5));
    r
}

/// One line of the address file, from `lo` up to `hi`, applied to `addr`.
fn apply_line_at(addr: &mut Address, cs: &Vec<char>, lo: usize, hi: usize) -> (r: Result<(), String>)
    requires
        lo <= hi <= cs@.len(),
    ensures
        match apply_line(old(addr)@, cs@.subrange(lo as int, hi as int)) {
            Ok(b) => r is Ok && final(addr)@ == b,
            Err(m) => r matches Err(e) && e@ == m,
        },
{
    let (a, b) = trim_bounds(cs, lo, hi);
    let ghost l = cs@.subrange(a as int, b as int);
    proof {
        reveal_strlit("--host=");
        reveal_strlit("--port=");
        reveal_strlit("--address=");
    }
    if has_prefix_at(cs, a, b, "--host=") {
        let h = string_of(cs, a + 7, b);
        assert(h@ =~= l.skip(7));
        addr.host = h;
        Ok(())
    } else if has_prefix_at(cs, a, b, "--port=") {
        assert(cs@.subrange(a + 7, b as int) =~= l.skip(7));
        match parse_u32_at(cs, a + 7, b) {
            Ok(p) => {
                addr.port = p;
                Ok(())
            },
            Err(k) => {
                let mut m = "Invalid port: ".to_owned();
                let t = int_error_text(k);
                m.append(t.as_str());
                Err(m)
            },
        }
    } else if has_prefix_at(cs, a, b, "--address=") {
        let value = string_of(cs, a + 10, b);
        assert(value@ =~= l.skip(10));
        let vcs = chars_of(value.as_str());
        addr.socket_path = socket_from(&vcs);
        Ok(())
    } else {
        Ok(())
    }
}

/// Read an IBus address file: each line (trimmed) may set the host
/// (`--host=`), the port (`--port=`) or the socket path (`--address=`); later
/// lines override earlier ones. An unreadable port, or a file that sets
/// nothing, is an [`Error::Address`].
pub fn parse_address(contents: &str) -> (r: Result<Address, Error>)
    ensures
        match parsed_address(contents@) {
            Ok(a) => r matches Ok(x) && x@ == a,
            Err(m) => r matches Err(Error::Address(e)) && e@ == m,
        },
{
    let cs = chars_of(contents);
    let n = cs.len();
    let mut addr = Address { host: String::new(), port: 0, socket_path: String::new() };
    let mut i: usize = 0;
    loop
        invariant
            i <= n,
            n == cs@.len(),
            cs@ == contents@,
            apply_lines(empty_address(), cs@, 0) == apply_lines(addr@, cs@, i as int),
        ensures
            apply_lines(empty_address(), cs@, 0) == Ok::<AddressModel, Seq<char>>(addr@),
        decreases n - i,
    {
        let mut k = i;
        while k < n && cs[k] != '\n'
            invariant
                i <= k <= n,
                n == cs@.len(),
                next_newline(cs@, i as int) == next_newline(cs@, k as int),
            decreases n - k,
        {
            k = k + 1;
        }
        proof {
            lemma_next_newline(cs@, i as int);
            assert(next_newline(cs@, k as int) == k);
        }
        let ghost before = addr@;
        match apply_line_at(&mut addr, &cs, i, k) {
            Ok(()) => {},
            Err(m) => {
                assert(apply_lines(before, cs@, i as int) == Err::<AddressModel, Seq<char>>(m@));
                return Err(Error::Address(m));
            },
        }
        if k >= n {
            assert(apply_lines(before, cs@, i as int) == Ok::<AddressModel, Seq<char>>(addr@));
            break;
        }
        assert(apply_lines(before, cs@, i as int) == apply_lines(addr@, cs@, k as int + 1));
        i = k + 1;
    }
    if addr.socket_path.as_str().is_empty() && addr.port == 0 && addr.host.as_str().is_empty() {
        return Err(Error::Address("No valid address found in IBus address file".to_owned()));
    }
    Ok(addr)
}

/// The D-Bus address string that reaches an IBus address.
pub fn connect_string_of(addr: &Address) -> (s: String)
    ensures
        s@ == connect_string(addr@),
{
    let sp = &addr.socket_path;
    if !sp.as_str().is_empty() {
        let cs = chars_of(sp.as_str());
        if cs[0] == '@' {
            let mut s = "unix:abstract=".to_owned();
            let rest = string_of(&cs, 1, cs.len());
            s.append(rest.as_str());
            assert(rest@ =~= addr@.socket_path.drop_first());
            s
        } else {
            let mut s = "unix:path=".to_owned();
            s.append(sp.as_str());
            s
        }
    } else {
        let mut s = "tcp:host=".to_owned();
        s.append(addr.host.as_str());
        s.append(",port=");
        push_decimal(&mut s, addr.port);
        s
    }
}

/// The D-Bus address to connect to, from the contents of the IBus address
/// file; the file's errors as [`parse_address`] reports them.
pub fn connect_address(contents: &str) -> (r: Result<String, Error>)
    ensures
        match parsed_address(contents@) {
            Ok(a) => r matches Ok(s) && s@ == connect_string(a),
            Err(m) => r matches Err(Error::Address(e)) && e@ == m,
        },
{
    match parse_address(contents) {
        Ok(addr) => Ok(connect_string_of(&addr)),
        Err(e) => Err(e),
    }
}

/// The display number of an X display name: what stands before the first
/// `.`, once the leading colons are removed (`:0.1` gives `0`).
pub open spec fn display_number_of(d: Seq<char>) -> Seq<char>
    decreases d.len(),
{
    if d.len() > 0 && d[0] == ':' {
        display_number_of(d.drop_first())
    } else {
        d.take(next_dot(d, 0))
    }
}

/// The position of the first `.` at or after `i`, or the length.
pub open spec fn next_dot(s: Seq<char>, i: int) -> int
    decreases s.len() - i,
{
    if i >= s.len() {
        s.len() as int
    } else if s[i] == '.' {
        i
    } else {
        next_dot(s, i + 1)
    }
}

/// The display number of an X display name (`:0.1` gives `0`).
pub fn display_number(display: &str) -> (r: String)
    ensures
        r@ == display_number_of(display@),
{
    let cs = chars_of(display);
    let n = cs.len();
    let mut a: usize = 0;
    assert(cs@.skip(0) =~= cs@);
    while a < n && cs[a] == ':'
        invariant
            a <= n,
            n == cs@.len(),
            display_number_of(cs@) == display_number_of(cs@.skip(a as int)),
        decreases n - a,
    {
        assert(cs@.skip(a as int).drop_first() =~= cs@.skip(a as int + 1));
        a = a + 1;
    }
    let mut b = a;
    while b < n && cs[b] != '.'
        invariant
            a <= b <= n,
            n == cs@.len(),
            next_dot(cs@.skip(a as int), 0) == next_dot(cs@.skip(a as int), (b - a) as int),
        decreases n - b,
    {
        b = b + 1;
    }
    let r = string_of(&cs, a, b);
    assert(r@ =~= cs@.skip(a as int).take((b - a) as int));
    r
}

/// Whether a file in the IBus bus directory is the address file of a
/// display: its name is the display number, or starts with it and a `-`.
pub open spec fn address_file_matches(name: Seq<char>, display_num: Seq<char>) -> bool {
    has_prefix(name, display_num.push('-')) || name == display_num
}

/// Whether a file in the IBus bus directory is the address file of a display.
pub fn is_address_file_for(name: &str, display_num: &str) -> (b: bool)
    ensures
        b == address_file_matches(name@, display_num@),
{
    let cs = chars_of(name);
    let mut prefix = display_num.to_owned();
    string_push(&mut prefix, '-');
    let starts = has_prefix_at(&cs, 0, cs.len(), prefix.as_str());
    assert(cs@.subrange(0, cs@.len() as int) =~= name@);
    let same = name.to_owned() == display_num.to_owned();
    starts || same
}

proof fn lemma_no_newline(s: Seq<char>)
    requires
        forall|j: int| 0 <= j < s.len() ==> s[j] != '\n',
    ensures
        next_newline(s, 0) == s.len(),
{
    lemma_next_newline(s, 0);
}

/// A line that trimming leaves as it is, applied to an empty address.
proof fn lemma_single_line(s: Seq<char>)
    requires
        s.len() > 0,
        !is_whitespace(s[0]),
        !is_whitespace(s.last()),
        forall|j: int| 0 <= j < s.len() ==> s[j] != '\n',
    ensures
        apply_lines(empty_address(), s, 0) == apply_line(empty_address(), s),
        trim(s) == s,
{
    lemma_no_newline(s);
    assert(s.subrange(0, s.len() as int) =~= s);
}

/// A string without commas has its first comma at its end.
proof fn lemma_first_comma_none(s: Seq<char>)
    requires
        forall|j: int| 0 <= j < s.len() ==> s[j] != ',',
    ensures
        first_comma(s) == s.len(),
    decreases s.len(),
{
    if s.len() > 0 {
        assert forall|j: int| 0 <= j < s.drop_first().len() implies s.drop_first()[j] != ',' by {
            assert(s.drop_first()[j] == s[j + 1]);
        }
        lemma_first_comma_none(s.drop_first());
    }
}

/// The first comma after a comma-free prefix is the one that ends it.
proof fn lemma_first_comma_after(pre: Seq<char>, rest: Seq<char>)
    requires
        forall|j: int| 0 <= j < pre.len() ==> pre[j] != ',',
    ensures
        first_comma(pre + seq![','] + rest) == pre.len(),
    decreases pre.len(),
{
    let s = pre + seq![','] + rest;
    if pre.len() > 0 {
        assert forall|j: int| 0 <= j < pre.drop_first().len() implies pre.drop_first()[j] != ',' by {
            assert(pre.drop_first()[j] == pre[j + 1]);
        }
        lemma_first_comma_after(pre.drop_first(), rest);
        assert(s.drop_first() =~= pre.drop_first() + seq![','] + rest);
    } else {
        assert(s[0] == ',');
    }
}

/// A parameter that names no socket is passed over: what the parameters
/// after it name is what the whole list names.
pub proof fn law_socket_param_skips_others(pre: Seq<char>, rest: Seq<char>)
    requires
        forall|j: int| 0 <= j < pre.len() ==> pre[j] != ',',
        !has_prefix(pre, "path="@),
        !has_prefix(pre, "abstract="@),
    ensures
        socket_param(pre + seq![','] + rest) == socket_param(rest),
{
    let s = pre + seq![','] + rest;
    lemma_first_comma_after(pre, rest);
    assert(s.take(pre.len() as int) =~= pre);
    assert(s.skip(pre.len() as int + 1) =~= rest);
}

/// A last parameter `path=` or `abstract=` names its socket.
proof fn lemma_socket_param_single(kind: Seq<char>, name: Seq<char>)
    requires
        kind == "path="@ || kind == "abstract="@,
        forall|j: int| 0 <= j < name.len() ==> name[j] != ',',
    ensures
        socket_param(kind + name) == Some(
            if kind == "path="@ {
                name
            } else {
                seq!['@'] + name
            },
        ),
{
    reveal_strlit("path=");
    reveal_strlit("abstract=");
    let s = kind + name;
    assert forall|j: int| 0 <= j < s.len() implies s[j] != ',' by {
        if j >= kind.len() {
            assert(s[j] == name[j - kind.len()]);
        }
    }
    lemma_first_comma_none(s);
    assert(s.take(s.len() as int) =~= s);
    assert(s.take(kind.len() as int) =~= kind);
    assert(s.skip(kind.len() as int) =~= name);
    if kind == "abstract="@ {
        assert(s.take(5)[0] != "path="@[0]);
    }
}

/// The `unix:` address whose parameters end with `path=` or `abstract=`
/// after others that name no socket: its socket is that path, or that
/// abstract name marked with `@`.
pub proof fn law_socket_after_other_params(pre: Seq<char>, kind: Seq<char>, name: Seq<char>)
    requires
        forall|j: int| 0 <= j < pre.len() ==> pre[j] != ',',
        !has_prefix(pre, "path="@),
        !has_prefix(pre, "abstract="@),
        kind == "path="@ || kind == "abstract="@,
        forall|j: int| 0 <= j < name.len() ==> name[j] != ',',
    ensures
        socket_of("unix:"@ + pre + seq![','] + kind + name) == (if kind == "path="@ {
            name
        } else {
            seq!['@'] + name
        }),
{
    reveal_strlit("unix:");
    let v = "unix:"@ + pre + seq![','] + kind + name;
    assert(v.take(5) =~= "unix:"@);
    assert(v.skip(5) =~= pre + seq![','] + (kind + name));
    law_socket_param_skips_others(pre, kind + name);
    lemma_socket_param_single(kind, name);
}

/// An address file of one line that names an abstract socket connects to
/// that abstract socket: the `@` that marks it is taken off again.
pub proof fn law_abstract_socket_roundtrip(name: Seq<char>)
    requires
        forall|j: int| 0 <= j < name.len() ==> name[j] != '\n' && name[j] != ',',
        name.len() == 0 || !is_whitespace(name.last()),
    ensures
        match parsed_address("--address=unix:abstract="@ + name) {
            Ok(a) => connect_string(a) == "unix:abstract="@ + name,
            Err(_) => false,
        },
{
    reveal_strlit("--address=unix:abstract=");
    reveal_strlit("--host=");
    reveal_strlit("--port=");
    reveal_strlit("--address=");
    reveal_strlit("unix:");
    reveal_strlit("path=");
    reveal_strlit("abstract=");
    let s = "--address=unix:abstract="@ + name;
    assert(s.last() == (if name.len() == 0 { '=' } else { name.last() }));
    assert forall|j: int| 0 <= j < s.len() implies s[j] != '\n' by {
        if j >= 24 {
            assert(s[j] == name[j - 24]);
        }
    }
    lemma_single_line(s);
    assert(s.take(7)[2] != "--host="@[2]);
    assert(s.take(7)[2] != "--port="@[2]);
    assert(s.take(10) =~= "--address="@);
    let v = s.skip(10);
    assert(v.take(5) =~= "unix:"@);
    assert(v.skip(5) =~= "abstract="@ + name);
    lemma_socket_param_single("abstract="@, name);
    let a = AddressModel { socket_path: seq!['@'] + name, ..empty_address() };
    assert(apply_line(empty_address(), s) == Ok::<AddressModel, Seq<char>>(a));
    assert((seq!['@'] + name).drop_first() =~= name);
}

/// An address file of one line that names a socket path connects to that
/// path, unless the path starts with `@`, which marks an abstract socket.
pub proof fn law_socket_path_roundtrip(path: Seq<char>)
    requires
        forall|j: int| 0 <= j < path.len() ==> path[j] != '\n' && path[j] != ',',
        path.len() > 0,
        path[0] != '@',
        !is_whitespace(path.last()),
    ensures
        match parsed_address("--address=unix:path="@ + path) {
            Ok(a) => connect_string(a) == "unix:path="@ + path,
            Err(_) => false,
        },
{
    reveal_strlit("--address=unix:path=");
    reveal_strlit("--host=");
    reveal_strlit("--port=");
    reveal_strlit("--address=");
    reveal_strlit("unix:");
    reveal_strlit("path=");
    let s = "--address=unix:path="@ + path;
    assert(s.last() == path.last());
    assert forall|j: int| 0 <= j < s.len() implies s[j] != '\n' by {
        if j >= 20 {
            assert(s[j] == path[j - 20]);
        }
    }
    lemma_single_line(s);
    assert(s.take(7)[2] != "--host="@[2]);
    assert(s.take(7)[2] != "--port="@[2]);
    assert(s.take(10) =~= "--address="@);
    let v = s.skip(10);
    assert(v.take(5) =~= "unix:"@);
    assert(v.skip(5) =~= "path="@ + path);
    lemma_socket_param_single("path="@, path);
    let a = AddressModel { socket_path: path, ..empty_address() };
    assert(apply_line(empty_address(), s) == Ok::<AddressModel, Seq<char>>(a));
}

} // verus!

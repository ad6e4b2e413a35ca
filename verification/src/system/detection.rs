//! Facts about the machine, decided from what the system reports: whether
//! the installer runs as root, and whether the machine runs NixOS.

use vstd::prelude::*;
use vstd::string::*;
use crate::error::InstallerError;
use crate::text::{begins_with, chars_of, find, find_from, lemma_found_fits, occurs, occurs_in, split_lines, starts_with_chars, string_of, text_lines, trim_chars, trimmed, first_non_space, is_white_space, is_digit_ascii, whitespace};

verus! {

/// Whether the installer may act as root: always in a simulation, else when
/// the process's user id is 0.
pub fn is_root(mock: bool, uid: u32) -> (r: bool)
    ensures
        r == (mock || uid == 0),
{
    mock || uid == 0
}

/// A line of `/etc/os-release` that names NixOS as the system or one it is
/// like.
pub open spec fn names_nixos(line: Seq<char>) -> bool {
    (begins_with(line, "ID="@) || begins_with(line, "ID_LIKE="@)) && occurs_in(line, "nixos"@)
}

/// The contents of `/etc/os-release` name NixOS on one of their lines.
pub open spec fn release_names_nixos(content: Seq<char>) -> bool {
    exists|k: int| 0 <= k < text_lines(content).len() && names_nixos(#[trigger] text_lines(content)[k])
}

/// Whether the machine runs NixOS: always in a simulation, else when
/// `/etc/os-release` (if it could be read) names NixOS, else when the Nix
/// store (`/nix/store`) exists.
pub fn is_nixos(mock: bool, os_release: Option<&str>, nix_store_exists: bool) -> (r: Result<bool, InstallerError>)
    ensures
        r matches Ok(b) && b == (mock || match os_release {
            Some(c) => release_names_nixos(c@),
            None => false,
        } || nix_store_exists),
{
    if mock {
        return Ok(true);
    }
    if let Some(content) = os_release {
        let lines = split_lines(content);
        let id = chars_of("ID=");
        let id_like = chars_of("ID_LIKE=");
        let nixos = chars_of("nixos");
        let mut i: usize = 0;
        while i < lines.len()
            invariant
                i <= lines@.len(),
                os_release == Some(content),
                !mock,
                lines@.len() == text_lines(content@).len(),
                forall|k: int| 0 <= k < lines@.len() ==> #[trigger] lines@[k]@ == text_lines(content@)[k],
                id@ == "ID="@,
                id_like@ == "ID_LIKE="@,
                nixos@ == "nixos"@,
                forall|k: int| 0 <= k < i ==> !names_nixos(#[trigger] text_lines(content@)[k]),
            decreases lines@.len() - i,
        {
            let line = &lines[i];
            if (starts_with_chars(line, &id) || starts_with_chars(line, &id_like)) && occurs(line, &nixos) {
                assert(lines@[i as int]@ == text_lines(content@)[i as int]);
                assert(names_nixos(text_lines(content@)[i as int]));
                assert(release_names_nixos(content@));
                return Ok(true);
            }
            i = i + 1;
        }
    }
    Ok(nix_store_exists)
}

/// What follows the first `:` of a line, up to the next `:` or the end;
/// `None` when the line has no `:`.
pub open spec fn second_field(line: Seq<char>) -> Option<Seq<char>> {
    match find_from(line, ":"@, 0) {
        None => None,
        Some(i) => {
            let rest = line.subrange(i + 1int, line.len() as int);
            match find_from(rest, ":"@, 0) {
                Some(j) => Some(rest.subrange(0, j as int)),
                None => Some(rest),
            }
        },
    }
}

/// The trimmed second field of the first line from `k` on that begins with
/// `model name` and has a `:`.
pub open spec fn model_from(lines: Seq<Seq<char>>, k: int) -> Option<Seq<char>>
    decreases lines.len() - k,
{
    if k < 0 || k >= lines.len() {
        None
    } else if begins_with(lines[k], "model name"@) && second_field(lines[k]) is Some {
        Some(trimmed(second_field(lines[k])->0))
    } else {
        model_from(lines, k + 1)
    }
}

/// The processor model named in `/proc/cpuinfo`, or `Unknown CPU`.
pub open spec fn cpu_model_of(cpuinfo: Seq<char>) -> Seq<char> {
    match model_from(text_lines(cpuinfo), 0) {
        Some(m) => m,
        None => "Unknown CPU"@,
    }
}

/// The part of `s` from `from` to its end.
fn tail_from(s: &Vec<char>, from: usize) -> (r: Vec<char>)
    requires
        from <= s@.len(),
    ensures
        r@ == s@.subrange(from as int, s@.len() as int),
{
    let mut r: Vec<char> = Vec::new();
    let mut k: usize = from;
    while k < s.len()
        invariant
            from <= k <= s@.len(),
            r@ == s@.subrange(from as int, k as int),
        decreases s@.len() - k,
    {
        r.push(s[k]);
        k = k + 1;
        assert(r@ =~= s@.subrange(from as int, k as int));
    }
    r
}

/// The second field of a line, as `second_field` says.
fn line_second_field(line: &Vec<char>) -> (r: Option<Vec<char>>)
    ensures
        match r {
            Some(f) => second_field(line@) == Some(f@),
            None => second_field(line@) is None,
        },
{
    let colon = chars_of(":");
    let n = line.len();
    proof {
        reveal_strlit(":");
    }
    match find(line, &colon) {
        None => None,
        Some(i) => {
            proof {
                lemma_found_fits(line@, colon@, 0);
            }
            let rest = tail_from(line, i + 1);
            match find(&rest, &colon) {
                Some(j) => {
                    proof {
                        lemma_found_fits(rest@, colon@, 0);
                    }
                    let mut field: Vec<char> = Vec::new();
                    let mut k: usize = 0;
                    while k < j
                        invariant
                            j <= rest@.len(),
                            k <= j,
                            field@ == rest@.subrange(0, k as int),
                        decreases j - k,
                    {
                        field.push(rest[k]);
                        k = k + 1;
                        assert(field@ =~= rest@.subrange(0, k as int));
                    }
                    Some(field)
                },
                None => Some(rest),
            }
        },
    }
}

/// The processor model named in the contents of `/proc/cpuinfo`: the
/// trimmed text after the `:` of the first `model name` line, or
/// `Unknown CPU` when there is none.
pub fn cpu_model_from(cpuinfo: &str) -> (r: String)
    ensures
        r@ == cpu_model_of(cpuinfo@),
{
    let lines = split_lines(cpuinfo);
    let prefix = chars_of("model name");
    let mut i: usize = 0;
    while i < lines.len()
        invariant
            i <= lines@.len(),
            lines@.len() == text_lines(cpuinfo@).len(),
            forall|k: int| 0 <= k < lines@.len() ==> #[trigger] lines@[k]@ == text_lines(cpuinfo@)[k],
            prefix@ == "model name"@,
            model_from(text_lines(cpuinfo@), 0) == model_from(text_lines(cpuinfo@), i as int),
        decreases lines@.len() - i,
    {
        let line = &lines[i];
        assert(line@ == text_lines(cpuinfo@)[i as int]);
        if starts_with_chars(line, &prefix) {
            if let Some(field) = line_second_field(line) {
                let model = trim_chars(&field);
                return string_of(&model);
            }
        }
        i = i + 1;
    }
    String::from_str("Unknown CPU")
}

/// The number of the first `n` lines that begin with `prefix`.
pub open spec fn count_beginning(lines: Seq<Seq<char>>, prefix: Seq<char>, n: int) -> nat
    decreases n,
{
    if n <= 0 || n > lines.len() {
        0
    } else {
        count_beginning(lines, prefix, n - 1) + if begins_with(lines[n - 1], prefix) { 1nat } else { 0nat }
    }
}

/// The number of processors listed in `/proc/cpuinfo`, at least one.
pub open spec fn cpu_cores_of(cpuinfo: Seq<char>) -> nat {
    let lines = text_lines(cpuinfo);
    let n = count_beginning(lines, "processor"@, lines.len() as int);
    if n == 0 { 1 } else { n }
}

/// The number of processors in the contents of `/proc/cpuinfo`: the lines
/// that begin with `processor`, and at least one.
pub fn cpu_cores_from(cpuinfo: &str) -> (r: usize)
    ensures
        r == cpu_cores_of(cpuinfo@),
{
    let lines = split_lines(cpuinfo);
    let prefix = chars_of("processor");
    let mut count: usize = 0;
    let mut i: usize = 0;
    while i < lines.len()
        invariant
            i <= lines@.len(),
            lines@.len() == text_lines(cpuinfo@).len(),
            forall|k: int| 0 <= k < lines@.len() ==> #[trigger] lines@[k]@ == text_lines(cpuinfo@)[k],
            prefix@ == "processor"@,
            count == count_beginning(text_lines(cpuinfo@), "processor"@, i as int),
            count <= i,
        decreases lines@.len() - i,
    {
        if starts_with_chars(&lines[i], &prefix) {
            count = count + 1;
        }
        i = i + 1;
    }
    if count == 0 { 1 } else { count }
}

/// The architecture that `uname -m` printed, trimmed, or `unknown` when it
/// failed.
pub fn architecture_from(succeeded: bool, stdout: &str) -> (r: String)
    ensures
        r@ == if succeeded { trimmed(stdout@) } else { "unknown"@ },
{
    if succeeded {
        string_of(&trim_chars(&chars_of(stdout)))
    } else {
        String::from_str("unknown")
    }
}

/// One past the last character of the run of non-white-space characters
/// that starts at `from`.
pub open spec fn token_end(s: Seq<char>, from: int) -> int
    decreases s.len() - from,
{
    if from < 0 || from >= s.len() {
        s.len() as int
    } else if is_white_space(s[from]) {
        from
    } else {
        token_end(s, from + 1)
    }
}

/// The second word of `s`, words being separated by white space.
pub open spec fn second_word(s: Seq<char>) -> Option<Seq<char>> {
    let a = first_non_space(s, 0);
    let b = token_end(s, a);
    let c = first_non_space(s, b);
    if c < s.len() {
        Some(s.subrange(c, token_end(s, c)))
    } else {
        None
    }
}

/// The value of a run of ASCII digits.
pub open spec fn digits_value(d: Seq<char>) -> nat
    decreases d.len(),
{
    if d.len() == 0 {
        0
    } else {
        digits_value(d.drop_last()) * 10 + ((d.last() as int - '0' as int) as nat)
    }
}

/// `t` without its leading `+`, if it has one.
pub open spec fn unsigned_part(t: Seq<char>) -> Seq<char> {
    if t.len() > 0 && t[0] == '+' { t.drop_first() } else { t }
}

/// Every character of `d` is an ASCII digit.
pub open spec fn all_digits(d: Seq<char>) -> bool {
    forall|i: int| 0 <= i < d.len() ==> is_digit_ascii(#[trigger] d[i])
}

/// The number `u64::from_str` reads from `t`: an optional `+` followed by
/// at least one ASCII digit, and no more than `u64::MAX`.
pub open spec fn parsed_u64(t: Seq<char>) -> Option<nat> {
    let d = unsigned_part(t);
    if d.len() > 0 && all_digits(d) && digits_value(d) <= u64::MAX {
        Some(digits_value(d))
    } else {
        None
    }
}

/// A prefix of a run of digits is worth no more than the run.
proof fn lemma_digits_prefix_le(d: Seq<char>, j: int)
    requires
        0 <= j <= d.len(),
        forall|i: int| 0 <= i < d.len() ==> is_digit_ascii(#[trigger] d[i]),
    ensures
        digits_value(d.subrange(0, j)) <= digits_value(d),
    decreases d.len(),
{
    if j < d.len() {
        assert(d.drop_last().subrange(0, j) =~= d.subrange(0, j));
        lemma_digits_prefix_le(d.drop_last(), j);
    } else {
        assert(d.subrange(0, j) =~= d);
    }
}

/// The number `t` holds, as `u64::from_str` reads it.
pub fn parse_u64(t: &Vec<char>) -> (r: Option<u64>)
    ensures
        match r {
            Some(v) => parsed_u64(t@) == Some(v as nat),
            None => parsed_u64(t@) is None,
        },
{
    let start: usize = if t.len() > 0 && t[0] == '+' { 1 } else { 0 };
    let ghost d = unsigned_part(t@);
    assert(d =~= t@.subrange(start as int, t@.len() as int));
    if start >= t.len() {
        return None;
    }
    let mut value: u64 = 0;
    let mut k: usize = start;
    assert(d.subrange(0, 0) =~= Seq::<char>::empty());
    while k < t.len()
        invariant
            start <= k <= t@.len(),
            d =~= t@.subrange(start as int, t@.len() as int),
            d == unsigned_part(t@),
            start < t@.len(),
            forall|i: int| 0 <= i < k - start ==> is_digit_ascii(#[trigger] d[i]),
            value == digits_value(d.subrange(0, k - start)),
        decreases t@.len() - k,
    {
        let c = t[k];
        if !('0' <= c && c <= '9') {
            assert(!is_digit_ascii(d[k - start]));
            return None;
        }
        let digit: u64 = (c as u32 - '0' as u32) as u64;
        assert(c == d[k - start]);
        assert(digit == d[k - start] as int - '0' as int);
        proof {
            assert(d.subrange(0, k - start + 1).drop_last() =~= d.subrange(0, k - start));
        }
        let next: u128 = (value as u128) * 10 + (digit as u128);
        if next > u64::MAX as u128 {
            proof {
                assert forall|i: int| 0 <= i < k - start + 1 implies is_digit_ascii(#[trigger] d.subrange(0, k - start + 1)[i]) by {
                    if i == k - start {
                    }
                }
                if all_digits(d) {
                    lemma_digits_prefix_le(d, k - start + 1);
                }
            }
            return None;
        }
        value = next as u64;
        k = k + 1;
    }
    assert(d.subrange(0, k - start) =~= d);
    Some(value)
}

/// The memory size in kilobytes given by the first line from `k` on that
/// begins with `MemTotal:` and whose second word is a number.
pub open spec fn mem_total_from(lines: Seq<Seq<char>>, k: int) -> Option<nat>
    decreases lines.len() - k,
{
    if k < 0 || k >= lines.len() {
        None
    } else if begins_with(lines[k], "MemTotal:"@) && (second_word(lines[k]) matches Some(w) && parsed_u64(w) is Some) {
        parsed_u64(second_word(lines[k])->0)
    } else {
        mem_total_from(lines, k + 1)
    }
}

/// The memory size in kilobytes named in `/proc/meminfo`, if any.
pub open spec fn ram_kb_of(meminfo: Seq<char>) -> Option<nat> {
    mem_total_from(text_lines(meminfo), 0)
}

/// The end of the word that starts at `from`.
fn word_end(s: &Vec<char>, from: usize) -> (r: usize)
    requires
        from <= s@.len(),
    ensures
        r == token_end(s@, from as int),
        from <= r <= s@.len(),
{
    let mut k = from;
    while k < s.len() && !whitespace(s[k])
        invariant
            from <= k <= s@.len(),
            token_end(s@, k as int) == token_end(s@, from as int),
        decreases s@.len() - k,
    {
        k = k + 1;
    }
    k
}

/// The start of the next word at or after `from`.
fn word_start(s: &Vec<char>, from: usize) -> (r: usize)
    requires
        from <= s@.len(),
    ensures
        r == first_non_space(s@, from as int),
        from <= r <= s@.len(),
{
    let mut k = from;
    while k < s.len() && whitespace(s[k])
        invariant
            from <= k <= s@.len(),
            first_non_space(s@, k as int) == first_non_space(s@, from as int),
        decreases s@.len() - k,
    {
        k = k + 1;
    }
    k
}

/// The second word of `s`.
fn line_second_word(s: &Vec<char>) -> (r: Option<Vec<char>>)
    ensures
        match r {
            Some(w) => second_word(s@) == Some(w@),
            None => second_word(s@) is None,
        },
{
    let a = word_start(s, 0);
    let b = word_end(s, a);
    let c = word_start(s, b);
    if c < s.len() {
        let e = word_end(s, c);
        let mut w: Vec<char> = Vec::new();
        let mut k: usize = c;
        while k < e
            invariant
                c <= k <= e <= s@.len(),
                w@ == s@.subrange(c as int, k as int),
            decreases e - k,
        {
            w.push(s[k]);
            k = k + 1;
            assert(w@ =~= s@.subrange(c as int, k as int));
        }
        Some(w)
    } else {
        None
    }
}

/// The memory size in kilobytes named in the contents of `/proc/meminfo`:
/// the number after `MemTotal:` on the first line that has one.
pub fn ram_kb_from(meminfo: &str) -> (r: Option<u64>)
    ensures
        match r {
            Some(v) => ram_kb_of(meminfo@) == Some(v as nat),
            None => ram_kb_of(meminfo@) is None,
        },
{
    let lines = split_lines(meminfo);
    let prefix = chars_of("MemTotal:");
    let mut i: usize = 0;
    while i < lines.len()
        invariant
            i <= lines@.len(),
            lines@.len() == text_lines(meminfo@).len(),
            forall|k: int| 0 <= k < lines@.len() ==> #[trigger] lines@[k]@ == text_lines(meminfo@)[k],
            prefix@ == "MemTotal:"@,
            mem_total_from(text_lines(meminfo@), 0) == mem_total_from(text_lines(meminfo@), i as int),
        decreases lines@.len() - i,
    {
        let line = &lines[i];
        assert(line@ == text_lines(meminfo@)[i as int]);
        if starts_with_chars(line, &prefix) {
            if let Some(word) = line_second_word(line) {
                if let Some(kb) = parse_u64(&word) {
                    return Some(kb);
                }
            }
        }
        i = i + 1;
    }
    None
}

/// The memory size in bytes named in the contents of `/proc/meminfo`, or 0
/// when none is named. The size in bytes must fit in 64 bits.
pub fn ram_bytes_from(meminfo: &str) -> (r: u64)
    requires
        ram_kb_of(meminfo@) matches Some(kb) ==> kb * 1024 <= u64::MAX,
    ensures
        r == match ram_kb_of(meminfo@) {
            Some(kb) => kb * 1024,
            None => 0,
        },
{
    match ram_kb_from(meminfo) {
        Some(kb) => kb * 1024,
        None => 0,
    }
}

} // verus!

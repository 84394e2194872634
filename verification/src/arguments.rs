//! Command-line argument parsing for the server and the player
//! programs: flags come in `flag value` pairs in any order, the
//! listening address defaults to the loopback address, and every port
//! must be a decimal number that fits in a port number.
//!
//! The launcher hands in the arguments after the program name and
//! reports a parse failure to the user itself.

use vstd::prelude::*;

verus! {

/// Whether every character of `s` is a decimal digit.
pub open spec fn all_digits(s: Seq<char>) -> bool {
    forall|j: int| 0 <= j < s.len() ==> 48 <= #[trigger] s[j] as u32 <= 57
}

/// The number the decimal digit characters of `s` spell.
pub open spec fn digits_value(s: Seq<char>) -> int
    decreases s.len(),
{
    if s.len() == 0 {
        0
    } else {
        digits_value(s.drop_last()) * 10 + ((s.last() as u32) - 48)
    }
}

/// The port a string names: it must be non-empty, all digits, and
/// small enough.
pub open spec fn spec_parse_u16(s: Seq<char>) -> Option<u16> {
    if s.len() > 0 && all_digits(s) && digits_value(s) <= 0xffff {
        Some(digits_value(s) as u16)
    } else {
        None
    }
}

/// A digit prefix never spells a negative number.
proof fn lemma_digits_value_nonneg(s: Seq<char>, i: int)
    requires
        0 <= i <= s.len(),
        all_digits(s),
    ensures
        digits_value(s.take(i)) >= 0,
    decreases i,
{
    if i > 0 {
        lemma_digits_value_nonneg(s, i - 1);
        assert(s.take(i).drop_last() =~= s.take(i - 1));
        assert(s.take(i).last() == s[i - 1]);
    }
}

/// Digits only ever grow the spelled number: the whole string spells
/// at least what any prefix spells.
proof fn lemma_digits_value_grows(s: Seq<char>, i: int)
    requires
        0 <= i <= s.len(),
        all_digits(s),
    ensures
        digits_value(s) >= digits_value(s.take(i)),
    decreases s.len() - i,
{
    if i == s.len() {
        assert(s.take(i) =~= s);
    } else {
        lemma_digits_value_grows(s, i + 1);
        lemma_digits_value_nonneg(s, i);
        assert(s.take(i + 1).drop_last() =~= s.take(i));
        assert(s.take(i + 1).last() == s[i]);
    }
}

/// Parse a decimal port number.
pub fn parse_u16(s: &String) -> (r: Option<u16>)
    ensures
        r == spec_parse_u16(s@),
{
    let n = s.as_str().unicode_len();
    if n == 0 {
        return None;
    }
    let mut acc: u32 = 0;
    let mut i: usize = 0;
    while i < n
        invariant
            0 < n == s@.len(),
            i <= n,
            acc == digits_value(s@.take(i as int)),
            acc <= 0xffff,
            forall|j: int| 0 <= j < i ==> 48 <= #[trigger] s@[j] as u32 <= 57,
        decreases n - i,
    {
        let c = s.as_str().get_char(i);
        let u = c as u32;
        if u < 48 || u > 57 {
            assert(!all_digits(s@));
            return None;
        }
        proof {
            assert(s@.take(i + 1).drop_last() =~= s@.take(i as int));
            assert(s@.take(i + 1).last() == s@[i as int]);
        }
        acc = acc * 10 + (u - 48);
        if acc > 0xffff {
            proof {
                if all_digits(s@) {
                    lemma_digits_value_grows(s@, i + 1);
                }
            }
            return None;
        }
        i = i + 1;
    }
    proof {
        assert(s@.take(n as int) =~= s@);
    }
    Some(acc as u16)
}

/// What is left to decide after some `flag value` pairs have been
/// consumed for the server: the remaining arguments, the address so
/// far, and the port so far. The parse fails on an unknown flag, a
/// flag without a value, a bad port, or a missing port.
pub open spec fn spec_parse_server_from(args: Seq<String>, ip: Seq<char>, port: Option<u16>) -> Option<
    (Seq<char>, u16),
>
    decreases args.len(),
{
    if args.len() == 0 {
        match port {
            Some(p) => Some((ip, p)),
            None => None,
        }
    } else if args.len() == 1 {
        None
    } else {
        let flag = args[0]@;
        let value = args[1]@;
        if flag == "-i"@ || flag == "--ip"@ {
            spec_parse_server_from(args.skip(2), value, port)
        } else if flag == "-p"@ || flag == "--port"@ {
            match spec_parse_u16(value) {
                Some(p) => spec_parse_server_from(args.skip(2), ip, Some(p)),
                None => None,
            }
        } else {
            None
        }
    }
}

/// The server's address and port from its arguments.
pub open spec fn spec_parse_server(args: Seq<String>) -> Option<(Seq<char>, u16)> {
    spec_parse_server_from(args, "127.0.0.1"@, None)
}

/// Parse the server arguments: `-i`/`--ip` (defaulting to the
/// loopback address) and a required `-p`/`--port`.
pub fn parse_server(args: &Vec<String>) -> (r: Option<(String, u16)>)
    ensures
        r matches Some(pair) ==> spec_parse_server(args@) == Some((pair.0@, pair.1)),
        r is None ==> spec_parse_server(args@) is None,
{
    let flag_ip_short: String = "-i".to_owned();
    let flag_ip_long: String = "--ip".to_owned();
    let flag_port_short: String = "-p".to_owned();
    let flag_port_long: String = "--port".to_owned();
    let mut ip: String = "127.0.0.1".to_owned();
    let mut port: Option<u16> = None;
    let n = args.len();
    let mut i: usize = 0;
    proof {
        assert(args@.skip(0) =~= args@);
    }
    while n - i >= 2
        invariant
            n == args@.len(),
            i <= n,
            flag_ip_short@ == "-i"@,
            flag_ip_long@ == "--ip"@,
            flag_port_short@ == "-p"@,
            flag_port_long@ == "--port"@,
            spec_parse_server(args@) == spec_parse_server_from(args@.skip(i as int), ip@, port),
        decreases n - i,
    {
        proof {
            assert(args@.skip(i as int)[0] == args@[i as int]);
            assert(args@.skip(i as int)[1] == args@[i + 1]);
            assert(args@.skip(i as int).skip(2) =~= args@.skip(i + 2));
        }
        let flag = &args[i];
        let value = &args[i + 1];
        if flag.eq(&flag_ip_short) || flag.eq(&flag_ip_long) {
            ip = value.clone();
        } else if flag.eq(&flag_port_short) || flag.eq(&flag_port_long) {
            match parse_u16(value) {
                Some(p) => {
                    port = Some(p);
                },
                None => {
                    return None;
                },
            }
        } else {
            return None;
        }
        i = i + 2;
    }
    if i < n {
        return None;
    }
    proof {
        assert(args@.skip(i as int) =~= Seq::<String>::empty());
    }
    match port {
        Some(p) => Some((ip, p)),
        None => None,
    }
}

/// What is left to decide for the player: its own address and port,
/// and the server's address and port.
pub open spec fn spec_parse_player_from(
    args: Seq<String>,
    ip: Seq<char>,
    port: Option<u16>,
    server_ip: Seq<char>,
    server_port: Option<u16>,
) -> Option<(Seq<char>, u16, Seq<char>, u16)>
    decreases args.len(),
{
    if args.len() == 0 {
        match (port, server_port) {
            (Some(p), Some(sp)) => Some((ip, p, server_ip, sp)),
            _ => None,
        }
    } else if args.len() == 1 {
        None
    } else {
        let flag = args[0]@;
        let value = args[1]@;
        if flag == "-i"@ || flag == "--ip"@ {
            spec_parse_player_from(args.skip(2), value, port, server_ip, server_port)
        } else if flag == "-p"@ || flag == "--port"@ {
            match spec_parse_u16(value) {
                Some(p) => spec_parse_player_from(args.skip(2), ip, Some(p), server_ip, server_port),
                None => None,
            }
        } else if flag == "--server-ip"@ {
            spec_parse_player_from(args.skip(2), ip, port, value, server_port)
        } else if flag == "--server-port"@ {
            match spec_parse_u16(value) {
                Some(sp) => spec_parse_player_from(args.skip(2), ip, port, server_ip, Some(sp)),
                None => None,
            }
        } else {
            None
        }
    }
}

/// The player's own address and port and the server's address and
/// port, from its arguments.
pub open spec fn spec_parse_player(args: Seq<String>) -> Option<(Seq<char>, u16, Seq<char>, u16)> {
    spec_parse_player_from(args, "127.0.0.1"@, None, "127.0.0.1"@, None)
}

/// Parse the player arguments: `-i`/`--ip` and `--server-ip`
/// (defaulting to the loopback address), and required `-p`/`--port`
/// and `--server-port`.
pub fn parse_player(args: &Vec<String>) -> (r: Option<(String, u16, String, u16)>)
    ensures
        r matches Some(q) ==> spec_parse_player(args@) == Some((q.0@, q.1, q.2@, q.3)),
        r is None ==> spec_parse_player(args@) is None,
{
    let flag_ip_short: String = "-i".to_owned();
    let flag_ip_long: String = "--ip".to_owned();
    let flag_port_short: String = "-p".to_owned();
    let flag_port_long: String = "--port".to_owned();
    let flag_server_ip: String = "--server-ip".to_owned();
    let flag_server_port: String = "--server-port".to_owned();
    let mut ip: String = "127.0.0.1".to_owned();
    let mut port: Option<u16> = None;
    let mut server_ip: String = "127.0.0.1".to_owned();
    let mut server_port: Option<u16> = None;
    let n = args.len();
    let mut i: usize = 0;
    proof {
        assert(args@.skip(0) =~= args@);
    }
    while n - i >= 2
        invariant
            n == args@.len(),
            i <= n,
            flag_ip_short@ == "-i"@,
            flag_ip_long@ == "--ip"@,
            flag_port_short@ == "-p"@,
            flag_port_long@ == "--port"@,
            flag_server_ip@ == "--server-ip"@,
            flag_server_port@ == "--server-port"@,
            spec_parse_player(args@) == spec_parse_player_from(
                args@.skip(i as int),
                ip@,
                port,
                server_ip@,
                server_port,
            ),
        decreases n - i,
    {
        proof {
            assert(args@.skip(i as int)[0] == args@[i as int]);
            assert(args@.skip(i as int)[1] == args@[i + 1]);
            assert(args@.skip(i as int).skip(2) =~= args@.skip(i + 2));
        }
        let flag = &args[i];
        let value = &args[i + 1];
        if flag.eq(&flag_ip_short) || flag.eq(&flag_ip_long) {
            ip = value.clone();
        } else if flag.eq(&flag_port_short) || flag.eq(&flag_port_long) {
            match parse_u16(value) {
                Some(p) => {
                    port = Some(p);
                },
                None => {
                    return None;
                },
            }
        } else if flag.eq(&flag_server_ip) {
            server_ip = value.clone();
        } else if flag.eq(&flag_server_port) {
            match parse_u16(value) {
                Some(sp) => {
                    server_port = Some(sp);
                },
                None => {
                    return None;
                },
            }
        } else {
            return None;
        }
        i = i + 2;
    }
    if i < n {
        return None;
    }
    proof {
        assert(args@.skip(i as int) =~= Seq::<String>::empty());
    }
    match (port, server_port) {
        (Some(p), Some(sp)) => Some((ip, p, server_ip, sp)),
        _ => None,
    }
}

} // verus!

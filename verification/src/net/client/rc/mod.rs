use vstd::prelude::*;

use crate::io::io_sync::{first_index_of, lemma_first_index_of};
use crate::io::{latin1_chars, latin1_to_string};
use crate::net::packet::from_client::rc_login::RcLogin;

/// The configuration of the RemoteControl client.
pub mod config;

verus! {

/// The value of a string of decimal digits, most significant first.
pub open spec fn decimal_value(d: Seq<u8>) -> nat
    decreases d.len(),
{
    if d.len() == 0 {
        0
    } else {
        decimal_value(d.drop_last()) * 10 + (d.last() - 48) as nat
    }
}

/// Whether every byte is an ASCII digit.
pub open spec fn all_digits(d: Seq<u8>) -> bool {
    forall|i: int| 0 <= i < d.len() ==> 48 <= #[trigger] d[i] <= 57
}

/// The digits of a number: what follows a leading `+`, if there is one.
pub open spec fn u16_digits(s: Seq<u8>) -> Seq<u8> {
    if s.len() > 0 && s[0] == 43 {
        s.skip(1)
    } else {
        s
    }
}

/// What `u16::from_str` gives for a string of these bytes: an optional `+`,
/// then at least one decimal digit and nothing else, of a value that fits.
pub open spec fn spec_parse_u16(s: Seq<u8>) -> Option<u16> {
    let d = u16_digits(s);
    if d.len() > 0 && all_digits(d) && decimal_value(d) <= u16::MAX {
        Some(decimal_value(d) as u16)
    } else {
        None
    }
}

proof fn lemma_decimal_value_grows(d: Seq<u8>, j: int)
    requires
        0 <= j <= d.len(),
        all_digits(d),
    ensures
        decimal_value(d.take(j)) <= decimal_value(d),
    decreases d.len() - j,
{
    if j < d.len() {
        lemma_decimal_value_grows(d, j + 1);
        assert(d.take(j + 1).drop_last() =~= d.take(j));
    } else {
        assert(d.take(j) =~= d);
    }
}

/// Parses a port number as `u16::from_str` does (see `spec_parse_u16`).
pub fn parse_u16(s: &[u8]) -> (r: Option<u16>)
    ensures
        r == spec_parse_u16(s@),
{
    let n = s.len();
    let start: usize = if n > 0 && s[0] == 43 {
        1
    } else {
        0
    };
    let ghost d = s@.skip(start as int);
    proof {
        assert(d =~= u16_digits(s@));
    }
    if start >= n {
        return None;
    }
    let mut acc: u32 = 0;
    let mut i: usize = start;
    proof {
        assert(d.take(0) =~= Seq::<u8>::empty());
    }
    while i < n
        invariant
            start <= i <= n,
            n == s@.len(),
            d == s@.skip(start as int),
            d == u16_digits(s@),
            all_digits(d.take(i - start)),
            acc == decimal_value(d.take(i - start)),
            acc <= u16::MAX,
        decreases n - i,
    {
        let c = s[i];
        if c < 48 || c > 57 {
            proof {
                assert(d[i - start] == c);
                assert(!(48 <= d[i - start] <= 57));
                assert(!all_digits(d));
            }
            return None;
        }
        let next = acc * 10 + (c - 48) as u32;
        proof {
            let t = d.take(i + 1 - start);
            assert(t.drop_last() =~= d.take(i - start));
            assert(t.last() == c);
            assert(all_digits(t));
        }
        if next > 65535 {
            proof {
                let t = d.take(i + 1 - start);
                assert(decimal_value(t) == next);
                if all_digits(d) {
                    lemma_decimal_value_grows(d, i + 1 - start);
                }
            }
            return None;
        }
        acc = next;
        i = i + 1;
    }
    proof {
        assert(d.take(i - start) =~= d);
    }
    Some(acc as u16)
}

/// The host and port that an NPC server address packet carries: after two
/// leading bytes, the host up to a comma, then the port up to the next comma
/// or the end. Each byte is one Latin-1 character.
pub open spec fn npc_addr_fields(data: Seq<u8>) -> Option<(Seq<u8>, Seq<u8>)> {
    let rest = data.skip(2);
    let k = first_index_of(rest, 44);
    if k < 0 {
        None
    } else {
        let after = rest.skip(k + 1);
        let k2 = first_index_of(after, 44);
        Some((rest.take(k), if k2 < 0 { after } else { after.take(k2) }))
    }
}

/// Parses the data of an NPC server address packet into the host and the
/// port (see `npc_addr_fields`); without a comma the port is missing, and a
/// port that `u16::from_str` refuses is invalid.
pub fn parse_npc_server_addr(data: &[u8]) -> (r: Result<(String, u16), String>)
    requires
        data@.len() >= 2,
    ensures
        match npc_addr_fields(data@) {
            None => (r matches Err(m) && m@ == "Missing NPC port"@),
            Some((host, port)) => match spec_parse_u16(port) {
                None => (r matches Err(m) && m@ == "Invalid NPC port"@),
                Some(p) => (r matches Ok((h, q)) && h@ == latin1_chars(host) && q == p),
            },
        },
{
    let n = data.len();
    let rest = &data[2..n];
    let ghost rs = rest@;
    let m = rest.len();
    let mut k: usize = 0;
    while k < m && rest[k] != 44
        invariant
            rs == rest@,
            k <= m,
            m == rs.len(),
            forall|j: int| 0 <= j < k ==> rs[j] != 44,
        decreases m - k,
    {
        k = k + 1;
    }
    proof {
        assert(rs =~= data@.skip(2));
        lemma_first_index_of(rs, 44);
        if k < m {
            crate::io::io_sync::lemma_first_index_of_unique(rs, 44, k as int);
        } else if first_index_of(rs, 44) >= 0 {
            assert(rs[first_index_of(rs, 44)] != 44);
        }
    }
    if k == m {
        return Err("Missing NPC port".to_owned());
    }
    let host = latin1_to_string(&rest[0..k]);
    let after = &rest[k + 1..m];
    let ghost af = after@;
    let a = after.len();
    let mut k2: usize = 0;
    while k2 < a && after[k2] != 44
        invariant
            af == after@,
            k2 <= a,
            a == af.len(),
            forall|j: int| 0 <= j < k2 ==> af[j] != 44,
        decreases a - k2,
    {
        k2 = k2 + 1;
    }
    proof {
        assert(af =~= rs.skip(k + 1));
        lemma_first_index_of(af, 44);
        if k2 < a {
            crate::io::io_sync::lemma_first_index_of_unique(af, 44, k2 as int);
        } else if first_index_of(af, 44) >= 0 {
            assert(af[first_index_of(af, 44)] != 44);
        }
    }
    let port_text = &after[0..k2];
    proof {
        assert(k2 == a ==> port_text@ =~= af);
        assert(k2 < a ==> port_text@ =~= af.take(k2 as int));
    }
    match parse_u16(port_text) {
        None => Err("Invalid NPC port".to_owned()),
        Some(port) => Ok((host, port)),
    }
}

/// A random byte, from `rand::random`. Trusted; nothing is claimed of its value.
#[verifier::external_body]
fn random_u8() -> (r: u8) {
    rand::random::<u8>()
}

/// The key of a v5 connection drawn from a random byte: its low seven bits.
pub fn encryption_key_from_byte(r: u8) -> (k: u8)
    ensures
        k == r & 0x7f,
        k <= 0x7f,
{
    let k = r & 0x7f;
    assert(r & 0x7f <= 0x7f) by (bit_vector);
    k
}

/// Draws the key of a v5 connection: the low seven bits of a random byte
/// (see `encryption_key_from_byte`), so a byte below 128. Which byte is drawn
/// is chance, so any such key may come back.
pub fn generate_encryption_key() -> (k: u8)
    ensures
        k <= 0x7f,
{
    let r = random_u8();
    encryption_key_from_byte(r)
}

/// The login packet of a remote-control client: its key, the protocol
/// version, the account and the password; the first identification names the
/// platform and the others are the PC ids.
pub fn rc_login_packet(
    encryption_key: u8,
    version: String,
    account: String,
    password: String,
    identification: &Vec<String>,
) -> (p: RcLogin)
    ensures
        p.encryption_key == encryption_key,
        p.version == version,
        p.account == account,
        p.password == password,
        identification@.len() == 0 ==> p.platform@ == Seq::<char>::empty() && p.pc_ids@.len() == 0,
        identification@.len() > 0 ==> {
            &&& p.platform@ == identification@[0]@
            &&& p.pc_ids@ == identification@.skip(1)
        },
{
    let mut platform = String::new();
    let mut pc_ids: Vec<String> = Vec::new();
    let mut i: usize = 0;
    while i < identification.len()
        invariant
            i <= identification@.len(),
            i == 0 ==> platform@ == Seq::<char>::empty(),
            i > 0 ==> platform@ == identification@[0]@,
            i == 0 ==> pc_ids@.len() == 0,
            i > 0 ==> pc_ids@ == identification@.subrange(1, i as int),
        decreases identification@.len() - i,
    {
        if i == 0 {
            platform = identification[0].clone();
        } else {
            pc_ids.push(identification[i].clone());
            proof {
                assert(pc_ids@ =~= identification@.subrange(1, i + 1));
            }
        }
        i = i + 1;
        proof {
            if i == 1 {
                assert(pc_ids@ =~= identification@.subrange(1, 1));
            }
        }
    }
    proof {
        if i > 0 {
            assert(identification@.subrange(1, i as int) =~= identification@.skip(1));
        }
    }
    RcLogin::new(encryption_key as u32, version, account, password, platform, pc_ids)
}

} // verus!

use vstd::prelude::*;
use vstd::utf8::{
    decode_utf8, encode_utf8_decode_utf8, encode_utf8_valid_utf8, is_ascii_chars,
    is_ascii_chars_encode_utf8, valid_utf8,
};

use crate::io::GraalIoError;
use crate::io::io_vec::IntoSyncGraalReader;
use crate::io::{GUINT8_MAX, latin1_chars};
use crate::io::io_sync::lemma_ascii_latin1;
use crate::net::serialization::serialize::{gscript_bytes, gscript_wire, gstring_bytes, str_bytes};
use crate::net::packet::from_server::FromServerPacketId;
use crate::net::packet::{
    GPacket, GPacketImpl, PacketConversionError, PacketId, script_utf8_message, string_from_utf8,
};

verus! {

/// The weapon that the server sends back for an NcWeaponGet request.
#[derive(Debug)]
pub struct NcWeaponGetImpl {
    /// The name of the script
    pub script_name: String,
    /// The script image
    pub img: String,
    /// The script
    pub script: String,
}

/// Script bytes as text: byte 0xA7 stands for a newline.
pub open spec fn script_newlines(b: Seq<u8>) -> Seq<u8> {
    b.map_values(|c: u8| if c == 0xa7 { 10u8 } else { c })
}

/// Whether the two length bytes that reading the packet reaches are Graal digits.
pub open spec fn nc_weapon_get_readable(d: Seq<u8>) -> bool {
    d.len() >= 1 ==> {
        &&& d[0] >= 32
        &&& d.len() >= 2 + (d[0] - 32) ==> d[1 + (d[0] - 32)] >= 32
    }
}

/// What reading an NcWeaponGet packet of these bytes gives: an end of data
/// before the name, the image and their lengths are complete; a script that is
/// not UTF-8, told by a message that starts with a fixed text; or the name and the image read as Latin-1 and the script.
pub open spec fn nc_weapon_get_read(d: Seq<u8>, r: Result<NcWeaponGetImpl, PacketConversionError>) -> bool {
    if nc_weapon_get_short(d) {
        r == Err::<NcWeaponGetImpl, PacketConversionError>(
            PacketConversionError::GraalIo(GraalIoError::UnexpectedEof),
        )
    } else {
        let n1 = d[0] - 32;
        let start = nc_weapon_get_script_start(d);
        let script = script_newlines(d.skip(start));
        if valid_utf8(script) {
            &&& r matches Ok(p)
            &&& r->Ok_0.script_name@ == latin1_chars(d.subrange(1, 1 + n1))
            &&& r->Ok_0.img@ == latin1_chars(d.subrange(2 + n1, start))
            &&& r->Ok_0.script@ == decode_utf8(script)
        } else {
            &&& r matches Err(PacketConversionError::Other(m))
            &&& "Failed to convert script to string: "@.is_prefix_of(r->Err_0->Other_0@)
        }
    }
}

/// Whether the packet ends before its name, its image and their lengths are complete.
pub open spec fn nc_weapon_get_short(d: Seq<u8>) -> bool {
    ||| d.len() < 1
    ||| d.len() < 1 + (d[0] - 32)
    ||| d.len() < 2 + (d[0] - 32)
    ||| d.len() < 2 + (d[0] - 32) + (d[1 + (d[0] - 32)] - 32)
}

/// Where the script starts: after the name, the image and their lengths.
pub open spec fn nc_weapon_get_script_start(d: Seq<u8>) -> int {
    2 + (d[0] - 32) + (d[1 + (d[0] - 32)] - 32)
}

impl NcWeaponGetImpl {
    /// Reads the packet: the script name and the image as Graal strings, then
    /// the script, in which byte 0xA7 stands for a newline.
    pub fn from_bytes(data: Vec<u8>) -> (r: Result<Self, PacketConversionError>)
        requires
            nc_weapon_get_readable(data@),
        ensures
            nc_weapon_get_read(data@, r),
    {
        let ghost d = data@;
        let mut reader = data.into_sync_graal_reader();
        let script_name = match reader.read_gstring() {
            Ok(s) => s,
            Err(e) => {
                return Err(PacketConversionError::GraalIo(e));
            },
        };
        let ghost n1 = d[0] - 32;
        proof {
            assert(reader@ == d.skip(1 + n1));
            if d.len() >= 2 + n1 {
                assert(reader@[0] == d[1 + n1]);
            }
        }
        let img = match reader.read_gstring() {
            Ok(s) => s,
            Err(e) => {
                return Err(PacketConversionError::GraalIo(e));
            },
        };
        let ghost start = nc_weapon_get_script_start(d);
        proof {
            assert(d.skip(1 + n1).subrange(1, 1 + (d[1 + n1] - 32)) =~= d.subrange(2 + n1, start));
            assert(reader@ =~= d.skip(start));
        }
        let script = match reader.read_to_end() {
            Ok(v) => v,
            Err(e) => {
                return Err(PacketConversionError::GraalIo(e));
            },
        };
        let mut mapped: Vec<u8> = Vec::with_capacity(script.len());
        let mut i: usize = 0;
        while i < script.len()
            invariant
                i <= script@.len(),
                mapped@ == script_newlines(script@.take(i as int)),
            decreases script@.len() - i,
        {
            let c = script[i];
            mapped.push(if c == 0xa7 { 0xa } else { c });
            i = i + 1;
            proof {
                assert(mapped@ =~= script_newlines(script@.take(i as int)));
            }
        }
        proof {
            assert(script@.take(i as int) =~= script@);
        }
        let script = match string_from_utf8(mapped) {
            Ok(s) => s,
            Err(e) => {
                return Err(PacketConversionError::Other(script_utf8_message(&e)));
            },
        };
        Ok(Self { script_name, img, script })
    }

    /// Reads an NcWeaponGet packet (see `from_bytes`); a packet of another kind
    /// is refused.
    pub fn try_from_packet(packet: &GPacketImpl) -> (r: Result<Self, PacketConversionError>)
        requires
            packet.spec_id() == PacketId::FromServer(FromServerPacketId::NcWeaponGet)
                ==> nc_weapon_get_readable(packet.spec_data()),
        ensures
            packet.spec_id() != PacketId::FromServer(FromServerPacketId::NcWeaponGet) ==> (r matches Err(
                PacketConversionError::Other(m),
            ) && m@ == "Expected NcWeaponGet packet"@),
            packet.spec_id() == PacketId::FromServer(FromServerPacketId::NcWeaponGet)
                ==> nc_weapon_get_read(packet.spec_data(), r),
    {
        if packet.id() != PacketId::FromServer(FromServerPacketId::NcWeaponGet) {
            return Err(PacketConversionError::Other("Expected NcWeaponGet packet".to_owned()));
        }
        Self::from_bytes(packet.data())
    }
}

/// Script bytes without `\r` and without 0xA7 come back from their wire form.
proof fn lemma_script_wire_back(b: Seq<u8>)
    requires
        forall|i: int| 0 <= i < b.len() ==> #[trigger] b[i] != 13 && b[i] != 0xa7,
    ensures
        script_newlines(gscript_wire(b)) == b,
    decreases b.len(),
{
    if b.len() > 0 {
        let f = b.drop_last();
        assert forall|i: int| 0 <= i < f.len() implies #[trigger] f[i] != 13 && f[i] != 0xa7 by {
            assert(f[i] == b[i]);
        }
        lemma_script_wire_back(f);
        let w = gscript_wire(f);
        let x: u8 = if b.last() == 10 { 0xa7 } else { b.last() };
        assert(b.last() != 13 && b.last() != 0xa7) by {
            assert(b.last() == b[b.len() - 1]);
        }
        assert(gscript_wire(b) == w.push(x));
        assert(script_newlines(w.push(x)) =~= script_newlines(w).push(if x == 0xa7 { 10u8 } else { x }));
        assert(b =~= f.push(b.last()));
    }
}

/// What an NcWeaponAdd packet sends, reading it as an NcWeaponGet packet gives
/// back: the weapon's name, its image and its script. This holds for a name
/// and an image in ASCII of at most `GUINT8_MAX` bytes each, and a script
/// whose bytes hold no `\r` (which sending drops) and no 0xA7 (which stands
/// for a newline on the wire).
pub proof fn lemma_nc_weapon_add_read_back(name: Seq<char>, image: Seq<char>, script: Seq<char>)
    requires
        is_ascii_chars(name),
        is_ascii_chars(image),
        name.len() <= GUINT8_MAX,
        image.len() <= GUINT8_MAX,
        forall|i: int|
            0 <= i < str_bytes(script).len() ==> #[trigger] str_bytes(script)[i] != 13
                && str_bytes(script)[i] != 0xa7,
    ensures
        ({
            let d = gstring_bytes(name) + gstring_bytes(image) + gscript_bytes(script);
            &&& nc_weapon_get_readable(d)
            &&& forall|r: Result<NcWeaponGetImpl, PacketConversionError>|
                #[trigger] nc_weapon_get_read(d, r) ==> {
                    &&& r matches Ok(p)
                    &&& r->Ok_0.script_name@ == name
                    &&& r->Ok_0.img@ == image
                    &&& r->Ok_0.script@ == script
                }
        }),
{
    let nb = str_bytes(name);
    let ib = str_bytes(image);
    let sb = str_bytes(script);
    is_ascii_chars_encode_utf8(name);
    is_ascii_chars_encode_utf8(image);
    let n1 = nb.len() as int;
    let n2 = ib.len() as int;
    let w = gscript_wire(sb);
    let d = gstring_bytes(name) + gstring_bytes(image) + gscript_bytes(script);
    assert(gstring_bytes(name) =~= seq![(n1 + 32) as u8] + nb);
    assert(gstring_bytes(image) =~= seq![(n2 + 32) as u8] + ib);
    assert(d =~= seq![(n1 + 32) as u8] + nb + seq![(n2 + 32) as u8] + ib + w);
    assert(d[0] == (n1 + 32) as u8);
    assert(d[1 + n1] == (n2 + 32) as u8);
    assert(d.subrange(1, 1 + n1) =~= nb);
    assert(d.subrange(2 + n1, 2 + n1 + n2) =~= ib);
    assert(d.skip(2 + n1 + n2) =~= w);
    assert(!nc_weapon_get_short(d));
    assert(nc_weapon_get_script_start(d) == 2 + n1 + n2);
    lemma_ascii_latin1(name);
    lemma_ascii_latin1(image);
    lemma_script_wire_back(sb);
    encode_utf8_valid_utf8(script);
    encode_utf8_decode_utf8(script);
}

} // verus!

use vstd::prelude::*;
use vstd::string::StringSliceAdditionalSpecFns;

use crate::io::io_vec::IntoSyncGraalWriterRef;
use crate::io::{GUINT8_MAX, GraalIoError, graal_encoding, gu_encoding, lemma_encoding_shape};
use crate::net::packet::from_client::FromClientPacketId;
use crate::net::packet::{GPacket, PacketId};
use crate::net::serialization::serialize::{gstring_bytes, str_bytes};

verus! {

/// The remote-control login packet, sent as a v5 login.
#[derive(Debug)]
pub struct RcLogin {
    /// Encryption key.
    pub encryption_key: u32,
    /// Version.
    pub version: String,
    /// Account.
    pub account: String,
    /// Password.
    pub password: String,
    /// Platform.
    pub platform: String,
    /// PC IDs
    pub pc_ids: Vec<String>,
}

/// The PC ids, each as it is, separated by `","`.
pub open spec fn joined_ids(ids: Seq<Seq<char>>) -> Seq<u8>
    decreases ids.len(),
{
    if ids.len() == 0 {
        Seq::empty()
    } else if ids.len() == 1 {
        str_bytes(ids[0])
    } else {
        joined_ids(ids.drop_last()) + seq![34u8, 44u8, 34u8] + str_bytes(ids.last())
    }
}

/// Joining lists of PC ids one after the other puts the separator `","`
/// between them: the ids of `a` then those of `b` are `a` joined, `","`, and
/// `b` joined. With one id there is no separator, and with none nothing, so
/// every two neighbouring ids are apart by exactly one separator.
pub proof fn lemma_joined_ids_concat(a: Seq<Seq<char>>, b: Seq<Seq<char>>)
    ensures
        joined_ids(Seq::empty()) == Seq::<u8>::empty(),
        a.len() == 1 ==> joined_ids(a) == str_bytes(a[0]),
        a.len() >= 1 && b.len() >= 1 ==> joined_ids(a + b) == joined_ids(a) + seq![34u8, 44u8, 34u8]
            + joined_ids(b),
    decreases b.len(),
{
    if a.len() >= 1 && b.len() >= 1 {
        let ab = a + b;
        assert(ab.len() >= 2);
        if b.len() == 1 {
            assert(ab.drop_last() =~= a);
            assert(ab.last() == b[0]);
        } else {
            let b2 = b.drop_last();
            lemma_joined_ids_concat(a, b2);
            assert(ab.drop_last() =~= a + b2);
            assert(ab.last() == b.last());
            let sep = seq![34u8, 44u8, 34u8];
            assert(joined_ids(ab) =~= joined_ids(a) + sep + joined_ids(b));
        }
    }
}

/// The bytes of a remote-control login packet: the key as a gu8, the version
/// as it is, the account and the password as GStrings, the platform, then
/// `,"`, the PC ids separated by `","`, and `"`.
pub open spec fn rc_login_bytes(
    key: u32,
    version: Seq<char>,
    account: Seq<char>,
    password: Seq<char>,
    platform: Seq<char>,
    pc_ids: Seq<Seq<char>>,
) -> Seq<u8> {
    gu_encoding(key as u64, 1) + str_bytes(version) + gstring_bytes(account) + gstring_bytes(
        password,
    ) + str_bytes(platform) + seq![44u8, 34u8] + joined_ids(pc_ids) + seq![34u8]
}

impl RcLogin {
    /// Create a new remote-control login packet.
    pub fn new(
        encryption_key: u32,
        version: String,
        account: String,
        password: String,
        platform: String,
        pc_ids: Vec<String>,
    ) -> (p: Self)
        ensures
            p.encryption_key == encryption_key,
            p.version == version,
            p.account == account,
            p.password == password,
            p.platform == platform,
            p.pc_ids == pc_ids,
    {
        Self { encryption_key, version, account, password, platform, pc_ids }
    }

    /// The bytes of the packet; the key, the account's length and the
    /// password's length must each fit a gu8.
    pub fn serialize(&self) -> (r: Result<Vec<u8>, GraalIoError>)
        ensures
            match r {
                Ok(v) => {
                    &&& self.encryption_key <= GUINT8_MAX
                    &&& str_bytes(self.account@).len() <= GUINT8_MAX
                    &&& str_bytes(self.password@).len() <= GUINT8_MAX
                    &&& v@ == rc_login_bytes(
                        self.encryption_key,
                        self.version@,
                        self.account@,
                        self.password@,
                        self.platform@,
                        self.pc_ids@.map_values(|s: String| s@),
                    )
                },
                Err(e) => {
                    if self.encryption_key > GUINT8_MAX {
                        e == GraalIoError::ValueExceedsMaximum(self.encryption_key as u64, GUINT8_MAX)
                    } else if str_bytes(self.account@).len() > GUINT8_MAX {
                        e == GraalIoError::ValueExceedsMaximum(
                            (str_bytes(self.account@).len() as usize) as u64,
                            GUINT8_MAX,
                        )
                    } else {
                        &&& str_bytes(self.password@).len() > GUINT8_MAX
                        &&& e == GraalIoError::ValueExceedsMaximum(
                            (str_bytes(self.password@).len() as usize) as u64,
                            GUINT8_MAX,
                        )
                    }
                },
            },
    {
        let mut vec: Vec<u8> = Vec::new();
        let mut writer = (&mut vec).into_sync_graal_writer();
        proof {
            lemma_encoding_shape(self.encryption_key as u64, 1);
            lemma_encoding_shape(str_bytes(self.account@).len() as u64, 1);
            lemma_encoding_shape(str_bytes(self.password@).len() as u64, 1);
        }
        writer.write_gu8(self.encryption_key.into())?;
        let ghost w1 = writer@;
        writer.write_bytes(self.version.as_str().as_bytes())?;
        let account = self.account.as_str();
        let password = self.password.as_str();
        proof {
            assert(account.spec_bytes() == str_bytes(self.account@));
            assert(password.spec_bytes() == str_bytes(self.password@));
        }
        writer.write_gstring(account)?;
        writer.write_gstring(password)?;
        writer.write_bytes(self.platform.as_str().as_bytes())?;
        let open: [u8; 2] = [44, 34];
        writer.write_bytes(&open)?;
        let ghost w2 = writer@;
        let sep: [u8; 3] = [34, 44, 34];
        let mut i: usize = 0;
        while i < self.pc_ids.len()
            invariant
                writer.position() == writer@.len(),
                (*writer.target)@ == writer@,
                after_borrow(vec) == *final(writer.target),
                i <= self.pc_ids@.len(),
                sep@ == seq![34u8, 44u8, 34u8],
                writer@ == w2 + joined_ids(self.pc_ids@.take(i as int).map_values(|s: String| s@)),
            decreases self.pc_ids@.len() - i,
        {
            if i > 0 {
                let _ = writer.write_bytes(&sep);
            }
            let _ = writer.write_bytes(self.pc_ids[i].as_str().as_bytes());
            proof {
                let done = self.pc_ids@.take(i as int).map_values(|s: String| s@);
                let next = self.pc_ids@.take(i + 1).map_values(|s: String| s@);
                assert(next.drop_last() =~= done);
                assert(next.last() == self.pc_ids@[i as int]@);
                if i == 0 {
                    assert(joined_ids(done) =~= Seq::<u8>::empty());
                }
                assert(writer@ =~= w2 + joined_ids(next));
            }
            i = i + 1;
        }
        proof {
            assert(self.pc_ids@.take(i as int) =~= self.pc_ids@);
        }
        let close: [u8; 1] = [34];
        writer.write_bytes(&close)?;
        writer.flush()?;
        proof {
            assert(open@ =~= seq![44u8, 34u8]);
            assert(close@ =~= seq![34u8]);
            assert(vec@ =~= rc_login_bytes(
                self.encryption_key,
                self.version@,
                self.account@,
                self.password@,
                self.platform@,
                self.pc_ids@.map_values(|s: String| s@),
            ));
        }
        Ok(vec)
    }
}

impl GPacket for RcLogin {
    open spec fn wire_ready(&self) -> bool {
        &&& self.encryption_key <= GUINT8_MAX
        &&& str_bytes(self.account@).len() <= GUINT8_MAX
        &&& str_bytes(self.password@).len() <= GUINT8_MAX
    }

    fn id(&self) -> (r: PacketId)
        ensures
            r == PacketId::FromClient(FromClientPacketId::V5Login),
    {
        PacketId::FromClient(FromClientPacketId::V5Login)
    }

    fn data(&self) -> (r: Vec<u8>)
        ensures
            r@ == rc_login_bytes(
                self.encryption_key,
                self.version@,
                self.account@,
                self.password@,
                self.platform@,
                self.pc_ids@.map_values(|s: String| s@),
            ),
    {
        match self.serialize() {
            Ok(v) => v,
            Err(_) => Vec::new(),
        }
    }
}

} // verus!

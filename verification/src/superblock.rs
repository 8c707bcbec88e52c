//! The whole superblock of one member: four fixed records in 256 bytes, and
//! behind them the table of roles.

use crate::array_info::{
    ArrayInfo, ArrayInfoView, ArrayLayout, ArrayLevel, CreationTime, RESERVED_BYTES,
};
use crate::array_state_info::{ArrayStateInfo, ArrayStateInfoView};
use crate::checksum::{checksum, checksum_of};
use crate::device_info::{DeviceInfo, DeviceInfoView};
use crate::error::RaidError;
use crate::feature_bit4::FeatureBit4;
use crate::ident::uuid_bytes;
use crate::le::{
    le_u16, le_u32, lemma_bytes_of_le_u16, lemma_le_u16_of_bytes, push_u16_le, read_u16_le, u16_le,
};
use crate::raw::{lemma_concat_assoc, push_all, take_array};
use crate::text::NAME_FIELD_LEN;
use uuid::Uuid;
use vstd::prelude::*;
use vstd::slice::slice_to_vec;
use vstd::string::{StringExecFns, StringSliceAdditionalSpecFns};
use vstd::utf8::encode_utf8;

verus! {

/// Length in bytes of the four fixed records together.
pub const FIXED_LEN: usize = 256;

/// Role of a slot that no member fills.
pub const ROLE_EMPTY: u16 = 0xffff;

/// The superblock of one member.
#[derive(Debug, Clone)]
pub struct MdpSuperblock1 {
    pub array_info: ArrayInfo,
    pub feature_bit4: FeatureBit4,
    pub device_info: DeviceInfo,
    pub array_state_info: ArrayStateInfo,
    /// For each slot of the array the role of the member in it: its
    /// position in the array, or `ROLE_EMPTY`.
    pub dev_roles: Vec<u16>,
}

/// The mathematical content of a superblock.
pub ghost struct SuperblockView {
    pub array_info: ArrayInfoView,
    pub feature_bit4: FeatureBit4,
    pub device_info: DeviceInfoView,
    pub array_state_info: ArrayStateInfoView,
    pub dev_roles: Seq<u16>,
}

impl View for MdpSuperblock1 {
    type V = SuperblockView;

    open spec fn view(&self) -> SuperblockView {
        SuperblockView {
            array_info: self.array_info@,
            feature_bit4: self.feature_bit4,
            device_info: self.device_info@,
            array_state_info: self.array_state_info@,
            dev_roles: self.dev_roles@,
        }
    }
}

/// The table of roles as it lies on disk: two bytes for each role,
/// little-endian, in the order of the slots.
pub open spec fn roles_to_bytes(roles: Seq<u16>) -> Seq<u8>
    decreases roles.len(),
{
    if roles.len() == 0 {
        Seq::empty()
    } else {
        roles_to_bytes(roles.drop_last()) + u16_le(roles.last())
    }
}

/// The first `n` roles that a run of bytes spells.
pub open spec fn roles_from_bytes(b: Seq<u8>, n: nat) -> Seq<u16> {
    Seq::new(n, |i: int| le_u16(b.subrange(2 * i, 2 * i + 2)))
}

/// The slot count that a buffer announces in its state record.
pub open spec fn announced_max_dev(b: Seq<u8>) -> u32 {
    le_u32(b.subrange(220, 224))
}

/// Whether a buffer holds a superblock: the fixed records are all there,
/// magic number and major version are right, and the table of roles is as
/// long as the state record says.
pub open spec fn decodable(b: Seq<u8>) -> bool {
    &&& b.len() >= FIXED_LEN
    &&& ArrayInfoView::from_bytes(b.subrange(0, 100)).format_ok()
    &&& b.len() >= FIXED_LEN + 2 * announced_max_dev(b)
}

impl SuperblockView {
    /// Every byte field has its width, and the table of roles has the
    /// number of slots that the state record gives.
    pub open spec fn wf(self) -> bool {
        &&& self.array_info.wf()
        &&& self.device_info.wf()
        &&& self.array_state_info.wf()
        &&& self.dev_roles.len() == self.array_state_info.max_dev
    }

    /// The superblock as it lies on disk: the four records, then the table
    /// of roles.
    pub open spec fn to_bytes(self) -> Seq<u8> {
        self.array_info.to_bytes() + self.feature_bit4.to_bytes() + self.device_info.to_bytes()
            + self.array_state_info.to_bytes() + roles_to_bytes(self.dev_roles)
    }

    /// The superblock that a buffer spells. Bytes behind the table of roles
    /// are not looked at.
    pub open spec fn from_bytes(b: Seq<u8>) -> SuperblockView {
        SuperblockView {
            array_info: ArrayInfoView::from_bytes(b.subrange(0, 100)),
            feature_bit4: FeatureBit4::of_bytes(b.subrange(100, 128)),
            device_info: DeviceInfoView::from_bytes(b.subrange(128, 192)),
            array_state_info: ArrayStateInfoView::from_bytes(b.subrange(192, 256)),
            dev_roles: roles_from_bytes(
                b.subrange(256, b.len() as int),
                announced_max_dev(b) as nat,
            ),
        }
    }

    /// What decoding a buffer gives.
    pub open spec fn decode(b: Seq<u8>) -> Result<SuperblockView, RaidError> {
        if decodable(b) {
            Ok(SuperblockView::from_bytes(b))
        } else {
            Err(RaidError::FormatInvalid)
        }
    }

    /// The same superblock with another stored checksum.
    pub open spec fn with_csum(self, sb_csum: u32) -> SuperblockView {
        SuperblockView {
            array_state_info: ArrayStateInfoView { sb_csum, ..self.array_state_info },
            ..self
        }
    }

    /// The checksum of the superblock: that of its bytes with the stored
    /// checksum taken as zero.
    #[verifier::opaque]
    pub open spec fn checksum(self) -> u32 {
        checksum(self.with_csum(0).to_bytes())
    }

    /// The stored checksum is the one that the content gives.
    pub open spec fn intact(self) -> bool {
        self.array_state_info.sb_csum == self.checksum()
    }
}

/// Slots in the table of roles of a new array.
pub const NEW_ARRAY_SLOTS: usize = 128;

/// The name under which an array is stored: host and array name with a
/// colon between them.
pub open spec fn array_name(host: Seq<char>, name: Seq<char>) -> Seq<char> {
    host + seq![':'] + name
}

/// The table of roles of a new array of `disk_count` members: 128 slots,
/// the first `disk_count` of them filled in order, the others empty.
pub open spec fn fresh_roles(disk_count: u32) -> Seq<u16> {
    Seq::new(
        NEW_ARRAY_SLOTS as nat,
        |i: int|
            if i < disk_count {
                i as u16
            } else {
                ROLE_EMPTY
            },
    )
}

impl SuperblockView {
    /// The superblock of one member of a new array, before its checksum is
    /// filled in.
    pub open spec fn unsigned(
        host: Seq<char>,
        name: Seq<char>,
        set_uuid: Seq<u8>,
        ctime: CreationTime,
        size_bytes: u64,
        sector_size: u64,
        disk_count: u32,
        device_info: DeviceInfoView,
        level: u32,
    ) -> SuperblockView {
        SuperblockView {
            array_info: ArrayInfoView::fresh(
                set_uuid,
                encode_utf8(array_name(host, name)),
                ctime,
                level,
                ArrayLayout::LeftAsymmetric.code(),
                size_bytes,
                sector_size,
                disk_count,
            ),
            feature_bit4: FeatureBit4::zeroed(),
            device_info,
            array_state_info: ArrayStateInfoView::fresh(),
            dev_roles: fresh_roles(disk_count),
        }
    }

    /// The superblock of one member of a new array: `unsigned`, with the
    /// checksum that its content gives.
    pub open spec fn fresh(
        host: Seq<char>,
        name: Seq<char>,
        set_uuid: Seq<u8>,
        ctime: CreationTime,
        size_bytes: u64,
        sector_size: u64,
        disk_count: u32,
        device_info: DeviceInfoView,
        level: u32,
    ) -> SuperblockView {
        let unsigned = SuperblockView::unsigned(
            host,
            name,
            set_uuid,
            ctime,
            size_bytes,
            sector_size,
            disk_count,
            device_info,
            level,
        );
        unsigned.with_csum(unsigned.checksum())
    }
}

/// The table of `n` roles is `2 * n` bytes long.
pub proof fn lemma_roles_to_bytes_len(roles: Seq<u16>)
    ensures
        roles_to_bytes(roles).len() == 2 * roles.len(),
    decreases roles.len(),
{
    if roles.len() > 0 {
        lemma_roles_to_bytes_len(roles.drop_last());
    }
}

/// In the bytes of a table the role of slot `i` lies at offset `2 * i`.
pub proof fn lemma_roles_to_bytes_at(roles: Seq<u16>, i: int)
    requires
        0 <= i < roles.len(),
    ensures
        roles_to_bytes(roles).len() == 2 * roles.len(),
        roles_to_bytes(roles).subrange(2 * i, 2 * i + 2) == u16_le(roles[i]),
    decreases roles.len(),
{
    lemma_roles_to_bytes_len(roles);
    lemma_roles_to_bytes_len(roles.drop_last());
    let front = roles_to_bytes(roles.drop_last());
    let all = roles_to_bytes(roles);
    if i == roles.len() - 1 {
        assert(all.subrange(2 * i, 2 * i + 2) =~= u16_le(roles.last()));
    } else {
        lemma_roles_to_bytes_at(roles.drop_last(), i);
        assert(all.subrange(2 * i, 2 * i + 2) =~= front.subrange(2 * i, 2 * i + 2));
    }
}

/// Reading a table back from its bytes gives the table.
pub proof fn lemma_roles_from_to_bytes(roles: Seq<u16>)
    ensures
        roles_from_bytes(roles_to_bytes(roles), roles.len()) == roles,
{
    let back = roles_from_bytes(roles_to_bytes(roles), roles.len());
    assert forall|i: int| 0 <= i < roles.len() implies back[i] == roles[i] by {
        lemma_roles_to_bytes_at(roles, i);
        lemma_le_u16_of_bytes(roles[i]);
    }
    assert(back =~= roles);
}

/// Writing out the roles read from `2 * n` bytes gives the bytes.
pub proof fn lemma_roles_to_from_bytes(b: Seq<u8>, n: nat)
    requires
        b.len() == 2 * n,
    ensures
        roles_to_bytes(roles_from_bytes(b, n)) == b,
    decreases n,
{
    let roles = roles_from_bytes(b, n);
    if n == 0 {
        assert(roles_to_bytes(roles) =~= b);
    } else {
        let front = b.subrange(0, 2 * n - 2);
        let last = b.subrange(2 * n - 2, 2 * n as int);
        lemma_roles_to_from_bytes(front, (n - 1) as nat);
        let shorter = roles_from_bytes(front, (n - 1) as nat);
        assert forall|i: int| 0 <= i < n - 1 implies roles.drop_last()[i] == shorter[i] by {
            assert(front.subrange(2 * i, 2 * i + 2) =~= b.subrange(2 * i, 2 * i + 2));
        }
        assert(roles.drop_last() =~= shorter);
        lemma_bytes_of_le_u16(last);
        assert(roles.last() == le_u16(last));
        assert(front + last =~= b);
    }
}

/// The checksum does not depend on the checksum that is stored: whatever
/// value the field holds, the same content gives the same checksum.
pub proof fn lemma_checksum_ignores_stored(sb: SuperblockView, stored: u32)
    ensures
        sb.with_csum(stored).checksum() == sb.checksum(),
{
    reveal(SuperblockView::checksum);
    assert(sb.with_csum(stored).with_csum(0) == sb.with_csum(0));
}

/// The bytes of a superblock made of the given parts.
fn encode(
    array_info: &ArrayInfo,
    feature_bit4: &FeatureBit4,
    device_info: &DeviceInfo,
    array_state_info: &ArrayStateInfo,
    dev_roles: &Vec<u16>,
) -> (r: Vec<u8>)
    ensures
        r@ == (SuperblockView {
            array_info: array_info@,
            feature_bit4: *feature_bit4,
            device_info: device_info@,
            array_state_info: array_state_info@,
            dev_roles: dev_roles@,
        }).to_bytes(),
{
    let mut out: Vec<u8> = slice_to_vec(array_info.as_bytes().as_slice());
    push_all(&mut out, feature_bit4.as_bytes().as_slice());
    push_all(&mut out, device_info.as_bytes().as_slice());
    push_all(&mut out, array_state_info.as_bytes().as_slice());
    let ghost fixed = out@;
    let mut i: usize = 0;
    assert(out@ == fixed + roles_to_bytes(dev_roles@.subrange(0, 0))) by {
        assert(roles_to_bytes(dev_roles@.subrange(0, 0)) =~= Seq::<u8>::empty());
        assert(fixed + Seq::<u8>::empty() =~= fixed);
    }
    while i < dev_roles.len()
        invariant
            i <= dev_roles.len(),
            out@ == fixed + roles_to_bytes(dev_roles@.subrange(0, i as int)),
        decreases dev_roles.len() - i,
    {
        let ghost before = roles_to_bytes(dev_roles@.subrange(0, i as int));
        push_u16_le(&mut out, dev_roles[i]);
        proof {
            let next = dev_roles@.subrange(0, i + 1);
            assert(next.drop_last() =~= dev_roles@.subrange(0, i as int));
            assert(roles_to_bytes(next) == before + u16_le(dev_roles@[i as int]));
            lemma_concat_assoc(fixed, before, u16_le(dev_roles@[i as int]));
        }
        i = i + 1;
    }
    assert(dev_roles@.subrange(0, i as int) =~= dev_roles@);
    out
}

impl MdpSuperblock1 {
    /// Bytes that a superblock takes on disk at most.
    pub const MAX_SIZE: usize = 4096;

    /// The superblock as it lies on disk, ready to be written at byte offset
    /// 0x1000 of the member.
    pub fn as_bytes(&self) -> (r: Vec<u8>)
        ensures
            r@ == self@.to_bytes(),
    {
        encode(
            &self.array_info,
            &self.feature_bit4,
            &self.device_info,
            &self.array_state_info,
            &self.dev_roles,
        )
    }

    /// The checksum of the superblock, computed over its bytes with the
    /// stored checksum taken as zero. The stored checksum has no part in it.
    pub fn calculate_sb_csum(&self) -> (r: u32)
        requires
            self.dev_roles@.len() <= u32::MAX,
        ensures
            r == self@.checksum(),
    {
        let mut state = self.array_state_info;
        state.sb_csum = 0;
        let bytes = encode(
            &self.array_info,
            &self.feature_bit4,
            &self.device_info,
            &state,
            &self.dev_roles,
        );
        proof {
            reveal(SuperblockView::checksum);
            let zeroed = self@.with_csum(0);
            self.array_info@.lemma_to_bytes_len();
            self.feature_bit4.lemma_to_bytes_len();
            self.device_info@.lemma_to_bytes_len();
            zeroed.array_state_info.lemma_to_bytes_len();
            lemma_roles_to_bytes_len(self.dev_roles@);
        }
        checksum_of(bytes.as_slice())
    }

    /// Whether the stored checksum is the one that the content gives.
    pub fn checksum_ok(&self) -> (r: bool)
        requires
            self.dev_roles@.len() <= u32::MAX,
        ensures
            r == self@.intact(),
    {
        self.array_state_info.sb_csum == self.calculate_sb_csum()
    }

    /// Reads a superblock from the bytes found at byte offset 0x1000 of a
    /// member. The buffer may be longer than the superblock.
    pub fn from_bytes(buf: &[u8]) -> (r: Result<MdpSuperblock1, RaidError>)
        ensures
            match r {
                Ok(sb) => SuperblockView::decode(buf@) == Ok::<SuperblockView, RaidError>(sb@)
                    && sb@.wf(),
                Err(e) => SuperblockView::decode(buf@) == Err::<SuperblockView, RaidError>(e),
            },
    {
        if buf.len() < FIXED_LEN {
            return Err(RaidError::FormatInvalid);
        }
        let array_info = match ArrayInfo::from_bytes(&take_array::<100>(buf, 0)) {
            Ok(info) => info,
            Err(e) => {
                return Err(e);
            },
        };
        let feature_bit4 = match FeatureBit4::from_bytes(&take_array::<28>(buf, 100)) {
            Ok(info) => info,
            Err(e) => {
                return Err(e);
            },
        };
        let device_info = match DeviceInfo::from_bytes(&take_array::<64>(buf, 128)) {
            Ok(info) => info,
            Err(e) => {
                return Err(e);
            },
        };
        let array_state_info = match ArrayStateInfo::from_bytes(&take_array::<64>(buf, 192)) {
            Ok(info) => info,
            Err(e) => {
                return Err(e);
            },
        };
        let count = array_state_info.max_dev;
        proof {
            let state = buf@.subrange(192, 256);
            assert(state.subrange(28, 32) =~= buf@.subrange(220, 224));
            assert(count == announced_max_dev(buf@));
        }
        if (buf.len() as u64) < FIXED_LEN as u64 + 2 * (count as u64) {
            return Err(RaidError::FormatInvalid);
        }
        let ghost table = buf@.subrange(256, buf@.len() as int);
        let mut dev_roles: Vec<u16> = Vec::new();
        let mut i: u32 = 0;
        while i < count
            invariant
                i <= count,
                buf.len() >= FIXED_LEN + 2 * count,
                table == buf@.subrange(256, buf@.len() as int),
                dev_roles@ == roles_from_bytes(table, i as nat),
            decreases count - i,
        {
            let at: usize = FIXED_LEN + 2 * (i as usize);
            dev_roles.push(read_u16_le(buf, at));
            proof {
                assert(table.subrange(2 * i, 2 * i + 2) =~= buf@.subrange(at as int, at + 2));
                assert(dev_roles@ =~= roles_from_bytes(table, (i + 1) as nat));
            }
            i = i + 1;
        }
        Ok(MdpSuperblock1 { array_info, feature_bit4, device_info, array_state_info, dev_roles })
    }

    /// The superblock with its stored checksum set to the one that its
    /// content gives.
    pub fn sealed(self) -> (r: MdpSuperblock1)
        requires
            self.dev_roles@.len() <= u32::MAX,
        ensures
            r@ == self@.with_csum(self@.checksum()),
            r@.intact(),
    {
        let csum = self.calculate_sb_csum();
        let mut sb = self;
        sb.array_state_info.sb_csum = csum;
        proof {
            assert(sb@ == self@.with_csum(csum));
            lemma_checksum_ignores_stored(self@, csum);
        }
        sb
    }

    /// The superblock of one member of a new array, with the checksum still
    /// to be filled in.
    fn draft(
        host: &str,
        name: &str,
        uuid: Uuid,
        ctime: CreationTime,
        size_bytes: u64,
        sector_size: u64,
        disk_count: u32,
        device_info: DeviceInfo,
        raid_level: ArrayLevel,
    ) -> (r: MdpSuperblock1)
        requires
            sector_size > 0,
            size_bytes >= RESERVED_BYTES,
            disk_count <= NEW_ARRAY_SLOTS,
        ensures
            r@ == SuperblockView::unsigned(
                host@,
                name@,
                uuid_bytes(uuid),
                ctime,
                size_bytes,
                sector_size,
                disk_count,
                device_info@,
                raid_level.code(),
            ),
            r@.wf(),
    {
        let mut full = String::from_str(host);
        full.append(":");
        full.append(name);
        proof {
            reveal_strlit(":");
            assert(":"@ =~= seq![':']);
            assert(full@ == array_name(host@, name@));
        }
        let array_info = ArrayInfo::new(
            uuid,
            full.as_str(),
            ctime,
            raid_level,
            ArrayLayout::LeftAsymmetric,
            size_bytes,
            sector_size,
            disk_count,
        );
        let feature_bit4 = FeatureBit4 {
            new_level: 0,
            reshape_position: 0,
            delta_disks: 0,
            new_layout: 0,
            new_chunk: 0,
            new_offset: 0,
        };
        let array_state_info = ArrayStateInfo::new();
        let mut dev_roles: Vec<u16> = Vec::new();
        let mut i: usize = 0;
        while i < NEW_ARRAY_SLOTS
            invariant
                i <= NEW_ARRAY_SLOTS,
                disk_count <= NEW_ARRAY_SLOTS,
                dev_roles@ == fresh_roles(disk_count).subrange(0, i as int),
            decreases NEW_ARRAY_SLOTS - i,
        {
            let role: u16 = if i < disk_count as usize {
                i as u16
            } else {
                ROLE_EMPTY
            };
            dev_roles.push(role);
            i = i + 1;
            assert(dev_roles@ =~= fresh_roles(disk_count).subrange(0, i as int));
        }
        assert(dev_roles@ =~= fresh_roles(disk_count));
        MdpSuperblock1 {
            array_info,
            feature_bit4,
            device_info,
            array_state_info,
            dev_roles,
        }
    }

    /// The superblock of one member of a new array with the identifier
    /// `uuid`. `size_bytes` is the size of the smallest member and
    /// `sector_size` the size of a sector, both in bytes; `device_info`
    /// describes the member. The array is stored under the name
    /// `host:name`, which has to fit the name field of 32 bytes.
    pub fn new_with_uuid(
        host: &str,
        name: &str,
        uuid: Uuid,
        ctime: CreationTime,
        size_bytes: u64,
        sector_size: u64,
        disk_count: u32,
        device_info: DeviceInfo,
        raid_level: ArrayLevel,
    ) -> (r: Result<MdpSuperblock1, RaidError>)
        requires
            sector_size > 0,
            size_bytes >= RESERVED_BYTES,
            disk_count <= NEW_ARRAY_SLOTS,
        ensures
            r is Ok <==> encode_utf8(host@).len() + 1 + encode_utf8(name@).len() <= NAME_FIELD_LEN,
            r matches Ok(sb) ==> sb@ == SuperblockView::fresh(
                host@,
                name@,
                uuid_bytes(uuid),
                ctime,
                size_bytes,
                sector_size,
                disk_count,
                device_info@,
                raid_level.code(),
            ) && sb@.wf() && sb@.intact(),
            r matches Err(e) ==> e == RaidError::NameTooLong,
    {
        let host_len = host.as_bytes().len();
        let name_len = name.as_bytes().len();
        if host_len >= NAME_FIELD_LEN || name_len > NAME_FIELD_LEN - 1 - host_len {
            return Err(RaidError::NameTooLong);
        }
        let draft = MdpSuperblock1::draft(
            host,
            name,
            uuid,
            ctime,
            size_bytes,
            sector_size,
            disk_count,
            device_info,
            raid_level,
        );
        let sb = draft.sealed();
        Ok(sb)
    }

    /// The superblock of one member of a new array. Without an identifier
    /// the array gets a random one; everything else in the superblock is
    /// what `new_with_uuid` gives for the identifier that it carries.
    pub fn new(
        host: &str,
        name: &str,
        uuid: Option<Uuid>,
        ctime: CreationTime,
        size_bytes: u64,
        sector_size: u64,
        disk_count: u32,
        device_info: DeviceInfo,
        raid_level: ArrayLevel,
    ) -> (r: Result<MdpSuperblock1, RaidError>)
        requires
            sector_size > 0,
            size_bytes >= RESERVED_BYTES,
            disk_count <= NEW_ARRAY_SLOTS,
        ensures
            r is Ok <==> encode_utf8(host@).len() + 1 + encode_utf8(name@).len() <= NAME_FIELD_LEN,
            r matches Ok(sb) ==> sb@ == SuperblockView::fresh(
                host@,
                name@,
                sb@.array_info.set_uuid,
                ctime,
                size_bytes,
                sector_size,
                disk_count,
                device_info@,
                raid_level.code(),
            ) && sb@.wf() && sb@.intact(),
            r matches Ok(sb) ==> (uuid matches Some(id) ==> sb@.array_info.set_uuid == uuid_bytes(
                id,
            )),
            r matches Err(e) ==> e == RaidError::NameTooLong,
    {
        let host_len = host.as_bytes().len();
        let name_len = name.as_bytes().len();
        if host_len >= NAME_FIELD_LEN || name_len > NAME_FIELD_LEN - 1 - host_len {
            return Err(RaidError::NameTooLong);
        }
        let id = match uuid {
            Some(id) => id,
            None => Uuid::new_v4(),
        };
        MdpSuperblock1::new_with_uuid(
            host,
            name,
            id,
            ctime,
            size_bytes,
            sector_size,
            disk_count,
            device_info,
            raid_level,
        )
    }
}

} // verus!

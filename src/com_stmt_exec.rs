use vstd::prelude::*;

use crate::bytes_view::bytes_content;
use crate::null_bitmap::{
    bit_set, lemma_null_bitmap_bits, lemma_null_bitmap_len, null_bitmap, null_bitmap_of, null_flags,
};
use crate::types::{ColumnDefPacket, ConnContext, FieldType, StmtExecFlag, ValueEncoding};
use crate::wire::{le_bytes, value_bytes, Encoder, MAX_PACKET_LENGTH};

verus! {

/// Command byte of "execute prepared statement".
pub const COM_STMT_EXECUTE: u8 = 0x17;

/// Request to execute a prepared statement.
///
/// `params` holds one slot per placeholder, `None` standing for SQL NULL.
/// `param_defs` holds one descriptor per placeholder when the parameter types
/// are (re-)sent; the NULL-bitmap, the type block and the values go on the wire
/// only when both are present.
#[derive(Debug)]
pub struct ComStmtExec {
    pub stmt_id: i32,
    pub flags: StmtExecFlag,
    pub params: Option<Vec<Option<bytes::Bytes>>>,
    pub param_defs: Option<Vec<ColumnDefPacket>>,
}

/// Why a request could not be encoded.
#[derive(Clone, Copy, Debug, PartialEq, Eq, Structural)]
pub enum ExecError {
    /// `params` and `param_defs` differ in length.
    ParamCountMismatch,
    /// The non-NULL parameter at `index` has a type that has no value encoding.
    UnsupportedParamType { index: usize, field_type: FieldType },
    /// The packet would not fit the 3-byte length field.
    PacketTooLarge,
}

/// Signedness byte of the type block: 1 for "not unsigned", 0 for unsigned.
pub open spec fn signedness_byte(d: ColumnDefPacket) -> u8 {
    if d.spec_is_signed_or_unknown() {
        1
    } else {
        0
    }
}

/// Two bytes per descriptor: its type tag, then its signedness byte.
pub open spec fn param_type_block(defs: Seq<ColumnDefPacket>) -> Seq<u8> {
    Seq::new(
        2 * defs.len(),
        |k: int|
            if k % 2 == 0 {
                defs[k / 2].field_type.spec_tag()
            } else {
                signedness_byte(defs[k / 2])
            },
    )
}

/// The encoded values of the first `n` parameters, NULLs contributing nothing.
pub open spec fn param_value_block(
    params: Seq<Option<bytes::Bytes>>,
    defs: Seq<ColumnDefPacket>,
    n: nat,
) -> Seq<u8>
    decreases n,
{
    if n == 0 {
        Seq::empty()
    } else {
        let rest = param_value_block(params, defs, (n - 1) as nat);
        match params[n - 1] {
            Some(b) => rest + value_bytes(defs[n - 1].field_type, bytes_content(b)),
            None => rest,
        }
    }
}

/// A NULL parameter needs no encoding; any other one needs its type to have one.
pub open spec fn param_supported(p: Option<bytes::Bytes>, d: ColumnDefPacket) -> bool {
    p is Some ==> d.field_type.spec_encoding() != ValueEncoding::Unsupported
}

/// Every parameter before index `k` can be encoded.
pub open spec fn params_supported_upto(
    params: Seq<Option<bytes::Bytes>>,
    defs: Seq<ColumnDefPacket>,
    k: int,
) -> bool {
    forall|i: int| 0 <= i < k ==> param_supported(params[i], defs[i])
}


/// `e` names the first parameter that cannot be encoded, and its type.
pub open spec fn is_first_unsupported(
    params: Seq<Option<bytes::Bytes>>,
    defs: Seq<ColumnDefPacket>,
    e: ExecError,
) -> bool {
    match e {
        ExecError::UnsupportedParamType { index, field_type } => {
            &&& index < params.len()
            &&& params_supported_upto(params, defs, index as int)
            &&& !param_supported(params[index as int], defs[index as int])
            &&& field_type == defs[index as int].field_type
        },
        _ => false,
    }
}

/// Finds the first parameter that cannot be encoded, if any.
pub fn check_param_types(
    params: &Vec<Option<bytes::Bytes>>,
    defs: &Vec<ColumnDefPacket>,
) -> (r: Result<(), ExecError>)
    requires
        params@.len() == defs@.len(),
    ensures
        r is Ok <==> params_supported_upto(params@, defs@, params@.len() as int),
        r is Err ==> is_first_unsupported(params@, defs@, r->Err_0),
{
    let mut i: usize = 0;
    while i < params.len()
        invariant
            i <= params@.len() == defs@.len(),
            params_supported_upto(params@, defs@, i as int),
        decreases params@.len() - i,
    {
        if params[i].is_some() {
            let field_type = defs[i].field_type;
            if let ValueEncoding::Unsupported = field_type.encoding() {
                return Err(ExecError::UnsupportedParamType { index: i, field_type });
            }
        }
        i = i + 1;
    }
    Ok(())
}

/// Appends the type block: each descriptor's type tag and signedness byte.
pub fn encode_param_types(encoder: &mut Encoder, defs: &Vec<ColumnDefPacket>)
    ensures
        final(encoder).buf@ == old(encoder).buf@ + param_type_block(defs@),
{
    let ghost start = encoder.buf@;
    let mut i: usize = 0;
    while i < defs.len()
        invariant
            i <= defs@.len(),
            encoder.buf@ == start + param_type_block(defs@.subrange(0, i as int)),
        decreases defs@.len() - i,
    {
        encoder.encode_int_u8(defs[i].field_type.tag());
        // The protocol's byte says "not unsigned": a signed parameter sends 1.
        encoder.encode_int_u8(if defs[i].is_signed_or_unknown() { 1u8 } else { 0u8 });
        i = i + 1;
        assert(encoder.buf@ =~= start + param_type_block(defs@.subrange(0, i as int)));
    }
    assert(defs@.subrange(0, defs@.len() as int) =~= defs@);
}

/// Appends the value of every non-NULL parameter, encoded by its type.
pub fn encode_param_values(
    encoder: &mut Encoder,
    params: &Vec<Option<bytes::Bytes>>,
    defs: &Vec<ColumnDefPacket>,
)
    requires
        params@.len() == defs@.len(),
        params_supported_upto(params@, defs@, params@.len() as int),
    ensures
        final(encoder).buf@ == old(encoder).buf@ + param_value_block(
            params@,
            defs@,
            params@.len(),
        ),
{
    let ghost start = encoder.buf@;
    let mut i: usize = 0;
    while i < params.len()
        invariant
            i <= params@.len() == defs@.len(),
            params_supported_upto(params@, defs@, params@.len() as int),
            encoder.buf@ == start + param_value_block(params@, defs@, i as nat),
        decreases params@.len() - i,
    {
        match &params[i] {
            Some(bytes) => {
                assert(param_supported(params@[i as int], defs@[i as int]));
                encoder.encode_param(bytes, defs[i].field_type);
            },
            None => {},
        }
        i = i + 1;
        assert(encoder.buf@ =~= start + param_value_block(params@, defs@, i as nat));
    }
}

impl ComStmtExec {
    /// Both the parameters and their descriptors are present.
    pub open spec fn spec_sends_params(&self) -> bool {
        self.params is Some && self.param_defs is Some
    }

    pub open spec fn spec_params(&self) -> Seq<Option<bytes::Bytes>> {
        self.params.unwrap()@
    }

    pub open spec fn spec_defs(&self) -> Seq<ColumnDefPacket> {
        self.param_defs.unwrap()@
    }

    /// There is one descriptor per parameter, or one of the two is absent.
    pub open spec fn spec_counts_match(&self) -> bool {
        self.spec_sends_params() ==> self.spec_params().len() == self.spec_defs().len()
    }

    /// Every parameter that goes on the wire can be encoded.
    pub open spec fn spec_types_supported(&self) -> bool {
        self.spec_sends_params() ==> params_supported_upto(
            self.spec_params(),
            self.spec_defs(),
            self.spec_params().len() as int,
        )
    }

    /// Sequence number, command byte, statement id, flags and the reserved byte.
    ///
    /// The reserved field is a single zero byte; the protocol's canonical
    /// layout has a 4-byte iteration count there instead.
    pub open spec fn spec_prologue(&self) -> Seq<u8> {
        seq![0u8, COM_STMT_EXECUTE] + le_bytes(self.stmt_id as u32 as u64, 4) + seq![
            self.flags.spec_byte(),
            0u8,
        ]
    }

    /// NULL-bitmap, new-params-bound byte, type block and values, when sent.
    pub open spec fn spec_param_block(&self) -> Seq<u8> {
        if self.spec_sends_params() {
            null_bitmap(null_flags(self.spec_params())) + seq![1u8] + param_type_block(
                self.spec_defs(),
            ) + param_value_block(
                self.spec_params(),
                self.spec_defs(),
                self.spec_params().len(),
            )
        } else {
            Seq::empty()
        }
    }

    /// Every byte of the packet after its length field.
    pub open spec fn spec_payload(&self) -> Seq<u8> {
        self.spec_prologue() + self.spec_param_block()
    }

    /// The whole packet: the 3-byte length of the payload, then the payload.
    pub open spec fn spec_packet(&self) -> Seq<u8> {
        le_bytes(self.spec_payload().len() as u64, 3) + self.spec_payload()
    }

    /// Appends the request's packet to `encoder`.
    ///
    /// Nothing is written unless the whole packet is: a count mismatch, a
    /// parameter without a value encoding and an oversized packet are all
    /// reported with the buffer as it was.
    pub fn serialize(
        &self,
        ctx: &mut ConnContext,
        encoder: &mut Encoder,
    ) -> (r: Result<(), ExecError>)
        ensures
            *final(ctx) == *old(ctx),
            r is Ok <==> self.spec_counts_match() && self.spec_types_supported()
                && self.spec_payload().len() <= MAX_PACKET_LENGTH,
            r is Ok ==> final(encoder).buf@ == old(encoder).buf@ + self.spec_packet(),
            r is Err ==> final(encoder).buf@ == old(encoder).buf@,
            (r == Err::<(), ExecError>(ExecError::ParamCountMismatch)) <==> !self.spec_counts_match(),
            self.spec_counts_match() && !self.spec_types_supported() ==> r is Err
                && is_first_unsupported(self.spec_params(), self.spec_defs(), r->Err_0),
            (r == Err::<(), ExecError>(ExecError::PacketTooLarge)) <==> self.spec_counts_match()
                && self.spec_types_supported() && self.spec_payload().len() > MAX_PACKET_LENGTH,
    {
        if let Some(params) = &self.params {
            if let Some(defs) = &self.param_defs {
                if params.len() != defs.len() {
                    return Err(ExecError::ParamCountMismatch);
                }
                check_param_types(params, defs)?;
            }
        }
        let mut packet = Encoder::new(0);
        packet.alloc_packet_header();
        packet.seq_no(0);
        packet.encode_int_u8(COM_STMT_EXECUTE);
        packet.encode_int_i32(self.stmt_id);
        packet.encode_int_u8(self.flags.as_byte());
        packet.encode_int_u8(0);
        assert(packet.buf@ =~= seq![0u8, 0u8, 0u8] + self.spec_prologue());
        if let Some(params) = &self.params {
            if let Some(defs) = &self.param_defs {
                let bitmap = null_bitmap_of(params);
                packet.encode_bytes(bitmap.as_slice());
                // New-params-bound: the parameter types follow.
                packet.encode_int_u8(1);
                encode_param_types(&mut packet, defs);
                encode_param_values(&mut packet, params, defs);
            }
        }
        assert(packet.buf@ =~= seq![0u8, 0u8, 0u8] + self.spec_payload());
        if packet.buf.len() - 3 > MAX_PACKET_LENGTH {
            return Err(ExecError::PacketTooLarge);
        }
        packet.encode_length();
        assert(packet.buf@ =~= self.spec_packet());
        encoder.buf.append(&mut packet.buf);
        Ok(())
    }
}

/// Three little-endian bytes of a value below 2^24 give back the value.
proof fn lemma_le3_round_trip(v: u64)
    by (bit_vector)
    requires
        v < 0x100_0000,
    ensures
        ((v >> 0u64) as u8) as u64 + 256 * ((v >> 8u64) as u8) as u64 + 65536 * ((v
            >> 16u64) as u8) as u64 == v,
{
}

/// The packet's first three bytes, read as a little-endian number, count
/// exactly the bytes that follow them.
pub proof fn lemma_length_field(req: &ComStmtExec)
    requires
        req.spec_payload().len() <= MAX_PACKET_LENGTH,
    ensures
        req.spec_packet()[0] as int + 256 * req.spec_packet()[1] as int + 65536
            * req.spec_packet()[2] as int == req.spec_packet().len() - 3,
{
    let v = req.spec_payload().len() as u64;
    lemma_le3_round_trip(v);
    assert(req.spec_packet()[0] == (v >> 0u64) as u8);
    assert(req.spec_packet()[1] == (v >> 8u64) as u8);
    assert(req.spec_packet()[2] == (v >> 16u64) as u8);
}

/// Without parameter descriptors the payload is the prologue alone: no
/// NULL-bitmap, no type block and no values.
pub proof fn lemma_no_descriptors_prologue_only(req: &ComStmtExec)
    requires
        req.param_defs is None,
    ensures
        req.spec_payload() == req.spec_prologue(),
        req.spec_packet().len() == 11,
{
    assert(req.spec_payload() =~= req.spec_prologue());
}

/// Where the parameters are sent, the NULL-bitmap follows the 11 bytes of
/// header and prologue, has `ceil(n / 8)` bytes for `n` parameters, and its bit
/// `i` is set iff parameter `i` is NULL.
pub proof fn lemma_packet_null_bitmap(req: &ComStmtExec)
    requires
        req.spec_sends_params(),
    ensures
        req.spec_packet().subrange(11, 11 + (req.spec_params().len() + 7) as int / 8) == null_bitmap(
            null_flags(req.spec_params()),
        ),
        null_bitmap(null_flags(req.spec_params())).len() == (req.spec_params().len() + 7) / 8,
        forall|i: int|
            0 <= i < 8 * null_bitmap(null_flags(req.spec_params())).len() ==> bit_set(
                #[trigger] null_bitmap(null_flags(req.spec_params()))[i / 8],
                (i % 8) as nat,
            ) == (i < req.spec_params().len() && req.spec_params()[i] is None),
{
    let bm = null_bitmap(null_flags(req.spec_params()));
    lemma_null_bitmap_len(req.spec_params());
    assert forall|i: int| 0 <= i < 8 * bm.len() implies bit_set(
        #[trigger] bm[i / 8],
        (i % 8) as nat,
    ) == (i < req.spec_params().len() && req.spec_params()[i] is None) by {
        lemma_null_bitmap_bits(req.spec_params(), i);
    }
    assert(req.spec_packet().subrange(11, 11 + bm.len() as int) =~= bm);
}

/// In the type block, descriptor `i` gives its type tag, then 0 if it is
/// unsigned and 1 otherwise.
pub proof fn lemma_type_block_entry(defs: Seq<ColumnDefPacket>, i: int)
    requires
        0 <= i < defs.len(),
    ensures
        param_type_block(defs)[2 * i] == defs[i].field_type.spec_tag(),
        defs[i].field_details.spec_is_unsigned() ==> param_type_block(defs)[2 * i + 1] == 0,
        !defs[i].field_details.spec_is_unsigned() ==> param_type_block(defs)[2 * i + 1] == 1,
{
    assert((2 * i) / 2 == i);
    assert((2 * i + 1) / 2 == i);
}

} // verus!

//! A whole request on the wire: a header frame, then the body that it
//! announces. The header is read and checked before any body byte.
use crate::operations::{NativeOperation, NativeOperationModel};
use crate::protobuf::{
    lemma_operation_body_round_trip, operation_body, operation_fits, operation_of_body,
    ProtobufConverter,
};
use crate::requests::ResponseStatus;
use crate::response_header::{
    frame_bytes, lemma_frame_round_trip, lemma_write_read_header, raw_from_bytes, read_header, spec_raw_of_native,
    spec_read_header, write_header, ResponseHeader,
};
use vstd::prelude::*;
use vstd::slice::slice_subrange;

verus! {

/// Number of bytes that a header frame takes before the body.
pub const FRAME_HEADER_LEN: usize = 26;

/// Whether an operation can be sent: its body can be written and its length
/// fits the header's body-length field.
pub open spec fn request_fits(o: NativeOperationModel) -> bool {
    operation_fits(o) && operation_body(o).len() <= u32::MAX
}

/// The header sent with an operation: the caller's header, with the opcode
/// of the operation.
pub open spec fn request_header(h: ResponseHeader, o: NativeOperationModel) -> ResponseHeader {
    ResponseHeader { opcode: o.opcode(), ..h }
}

/// The bytes of a whole request.
pub open spec fn request_bytes(h: ResponseHeader, o: NativeOperationModel) -> Seq<u8> {
    frame_bytes(spec_raw_of_native(request_header(h, o), operation_body(o).len() as u32))
        + operation_body(o)
}

/// Outcome of reading a whole request from the start of a stream.
pub open spec fn spec_read_request(s: Seq<u8>) -> Result<
    (ResponseHeader, NativeOperationModel),
    ResponseStatus,
> {
    match spec_read_header(s) {
        Err(e) => Err(e),
        Ok((h, len)) => if s.len() < FRAME_HEADER_LEN + len {
            Err(ResponseStatus::ConnectionError)
        } else {
            match operation_of_body(
                s.subrange(FRAME_HEADER_LEN as int, FRAME_HEADER_LEN + len),
                h.opcode,
            ) {
                Err(e) => Err(e),
                Ok(o) => Ok((h, o)),
            }
        },
    }
}

/// The header outcome depends on the first frame's bytes only.
proof fn lemma_read_header_prefix(f: Seq<u8>, b: Seq<u8>)
    requires
        f.len() == FRAME_HEADER_LEN,
    ensures
        spec_read_header(f + b) == spec_read_header(f),
{
    let s = f + b;
    assert(s.subrange(0, 4) =~= f.subrange(0, 4));
    assert(s.subrange(4, 6) =~= f.subrange(4, 6));
    let rs = s.subrange(6, s.len() as int);
    let rf = f.subrange(6, f.len() as int);
    assert(rs.subrange(3, 11) =~= rf.subrange(3, 11));
    assert(rs.subrange(12, 16) =~= rf.subrange(12, 16));
    assert(rs.subrange(16, 18) =~= rf.subrange(16, 18));
    assert(rs.subrange(18, 20) =~= rf.subrange(18, 20));
    assert(raw_from_bytes(rs) == raw_from_bytes(rf));
}

/// Writing a request with a header of the supported protocol version, then
/// reading it back, gives that header (with the operation's opcode) and an
/// operation equal in every field.
pub proof fn lemma_request_round_trip(h: ResponseHeader, o: NativeOperationModel)
    requires
        h.version_maj == 1,
        h.version_min == 0,
        request_fits(o),
    ensures
        spec_read_request(request_bytes(h, o)) == Ok::<
            (ResponseHeader, NativeOperationModel),
            ResponseStatus,
        >((request_header(h, o), o)),
{
    let body = operation_body(o);
    let hh = request_header(h, o);
    let f = frame_bytes(spec_raw_of_native(hh, body.len() as u32));
    let len = body.len() as u32;
    lemma_frame_round_trip(spec_raw_of_native(hh, len));
    lemma_write_read_header(hh, len);
    lemma_read_header_prefix(f, body);
    lemma_operation_body_round_trip(o);
    let s = f + body;
    assert(s == request_bytes(h, o));
    assert(spec_read_header(s) == Ok::<(ResponseHeader, u32), ResponseStatus>((hh, len)));
    assert(s.subrange(FRAME_HEADER_LEN as int, FRAME_HEADER_LEN + len) =~= body);
    assert(hh.opcode == o.opcode());
}

/// Writes a whole request: the header, with the operation's opcode and the
/// body's length, then the body.
pub fn write_request(h: ResponseHeader, op: NativeOperation) -> (r: Result<Vec<u8>, ResponseStatus>)
    ensures
        match r {
            Ok(v) => request_fits(op@) && v@ == request_bytes(h, op@),
            Err(e) => !request_fits(op@) && e == ResponseStatus::SerializingBodyFailed,
        },
{
    let converter = ProtobufConverter {};
    let opcode = op.opcode();
    let ghost model = op@;
    let body = match converter.operation_to_body(op) {
        Ok(b) => b,
        Err(e) => return Err(e),
    };
    if body.len() > u32::MAX as usize {
        return Err(ResponseStatus::SerializingBodyFailed);
    }
    let header = ResponseHeader { opcode, ..h };
    let mut out = write_header(header, body.len() as u32);
    out.extend_from_slice(body.as_slice());
    assert(out@ =~= request_bytes(h, model));
    Ok(out)
}

/// Reads a whole request from the start of an in-memory stream: the header
/// is validated first, then exactly the body that it announces is decoded.
pub fn read_request(s: &[u8]) -> (r: Result<(ResponseHeader, NativeOperation), ResponseStatus>)
    ensures
        match r {
            Ok((h, o)) => spec_read_request(s@) == Ok::<
                (ResponseHeader, NativeOperationModel),
                ResponseStatus,
            >((h, o@)),
            Err(e) => spec_read_request(s@) == Err::<
                (ResponseHeader, NativeOperationModel),
                ResponseStatus,
            >(e),
        },
{
    let (h, len) = match read_header(s) {
        Ok(x) => x,
        Err(e) => return Err(e),
    };
    if s.len() < FRAME_HEADER_LEN || s.len() - FRAME_HEADER_LEN < len as usize {
        return Err(ResponseStatus::ConnectionError);
    }
    let body = slice_subrange(s, FRAME_HEADER_LEN, FRAME_HEADER_LEN + len as usize);
    let converter = ProtobufConverter {};
    match converter.body_to_operation(body, h.opcode) {
        Ok(o) => Ok((h, o)),
        Err(e) => Err(e),
    }
}

} // verus!

//! UDS read-data-by-identifier queries and their responses.
//!
//! A query is one fixed 8-byte CAN payload: a length byte, the service
//! identifier 0x22, up to six subcommand bytes, and zero padding.  A
//! reassembled response starts with the response marker and a two-byte
//! parameter identifier, which are stripped before decoding.

use vstd::prelude::*;

verus! {

/// UDS service identifier of a read-data-by-identifier request.
pub const UDS_READ_DATA_BY_ID: u8 = 0x22;

/// Byte `i` of the query payload for subcommand `cmd`.
pub open spec fn spec_uds_query_byte(cmd: Seq<u8>, i: int) -> u8 {
    if cmd.len() > 6 {
        0u8
    } else if i == 0 {
        (cmd.len() + 1) as u8
    } else if i == 1 {
        UDS_READ_DATA_BY_ID
    } else if i < cmd.len() + 2 {
        cmd[i - 2]
    } else {
        0u8
    }
}

/// Model of `construct_uds_query`: the 8-byte query payload.  A
/// subcommand longer than six bytes cannot fit and yields all zeroes.
pub open spec fn spec_uds_query(cmd: Seq<u8>) -> Seq<u8> {
    Seq::new(8, |i: int| spec_uds_query_byte(cmd, i))
}

/// Builds the 8-byte diagnostic query payload for a subcommand: the
/// subcommand length plus one, the service identifier, the subcommand
/// bytes, and zero padding.
pub fn construct_uds_query(command: &[u8]) -> (query: [u8; 8])
    ensures
        query@ == spec_uds_query(command@),
{
    let mut query = [0u8; 8];
    if command.len() <= 6 {
        query[0] = command.len() as u8 + 1;
        query[1] = UDS_READ_DATA_BY_ID;
        let mut i: usize = 0;
        while i < command.len()
            invariant
                command@.len() <= 6,
                i <= command@.len(),
                query@.len() == 8,
                query@[0] == command@.len() + 1,
                query@[1] == UDS_READ_DATA_BY_ID,
                forall|k: int| 0 <= k < i ==> query@[k + 2] == command@[k],
                forall|k: int| i + 2 <= k < 8 ==> query@[k] == 0u8,
            decreases command@.len() - i,
        {
            query[i + 2] = command[i];
            i = i + 1;
        }
    }
    proof {
        assert(query@ =~= spec_uds_query(command@));
    }
    query
}

/// Splits a reassembled response payload into its two-byte parameter
/// identifier and the data behind it, stripping the leading response
/// marker.  A payload shorter than the three header bytes cannot be
/// split and yields `None`.
pub fn split_response(payload: &[u8]) -> (r: Option<(&[u8], &[u8])>)
    ensures
        payload@.len() >= 3 ==> (r matches Some((pid, data)) && pid@ == payload@.subrange(1, 3)
            && data@ == payload@.skip(3)),
        payload@.len() < 3 ==> r is None,
{
    if payload.len() >= 3 {
        Some((&payload[1..3], &payload[3..payload.len()]))
    } else {
        None
    }
}

} // verus!

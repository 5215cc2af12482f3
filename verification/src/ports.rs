//! Ports on the wire.

use vstd::prelude::*;
use vstd::string::*;
use crate::status::{Code, Status, StatusView};
use crate::text::{signed_decimal, signed_decimal_text};

verus! {

/// A number that names a TCP port.
pub open spec fn is_port(port: int) -> bool {
    0 <= port <= 65535
}

/// The text of the error for a number that names no port.
pub open spec fn invalid_port_message(port: int) -> Seq<char> {
    "invalid port number: "@ + signed_decimal(port)
}

/// What `parse_port` gives for each number.
pub open spec fn parsed_port(port: i32) -> Result<u16, StatusView> {
    if is_port(port as int) {
        Ok(port as u16)
    } else {
        Err(StatusView { code: Code::InvalidArgument, message: invalid_port_message(port as int) })
    }
}

/// Checks a port received from the peer.
pub fn parse_port(port: i32) -> (r: Result<u16, Status>)
    ensures
        r is Ok <==> is_port(port as int),
        (match r {
            Ok(port) => Ok(port),
            Err(status) => Err(status@),
        }) == parsed_port(port),
{
    if 0 <= port && port <= 65535 {
        Ok(port as u16)
    } else {
        let mut message = String::from_str("invalid port number: ");
        let digits = signed_decimal_text(port);
        message.append(digits.as_str());
        Err(Status::invalid_argument(message))
    }
}

} // verus!

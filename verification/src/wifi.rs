//! The Wi-Fi driver/supplicant control channel.
//!
//! The channel is a set of independent blocking calls against driver-global
//! state: load or unload the driver, start or stop the supplicant, connect,
//! then poll events and send commands.  No state machine is kept here — the
//! caller sequences the steps and tracks where it stands by the results.
//! Each native call reports a status (0 for success); every decision made
//! over those statuses and over the fixed 4096-byte reply buffers stands
//! here with its contract, and the thin shell that performs the blocking C
//! calls hands the raw outcomes in.
//!
//! Replies come out of an untrusted device; their bytes are decoded
//! permissively (lossily), so a reply is always convertible to displayable
//! text and an invalid byte sequence never raises an error.  A reply length
//! outside `1..=4096` — negative, empty, or past the buffer — is a bounds
//! violation, reported as a generic error: this layer does not try to tell
//! "no event" from "corrupt response".

use vstd::prelude::*;
use vstd::slice::slice_subrange;
use vstd::string::StringSliceAdditionalSpecFns;
use vstd::utf8::{decode_utf8, valid_utf8};

use crate::cstr::nul_terminated;

verus! {

/// The size of the receive buffer both channel calls use, in bytes.
pub const WIFI_REPLY_BUFFER_LEN: usize = 4096;

/// What the permissive decoder returns for a byte sequence: a function of
/// the bytes alone, the same in every process and on every machine.
pub uninterp spec fn lossy_utf8(bytes: Seq<u8>) -> Seq<char>;

/// Relies on `String::from_utf8_lossy`: the result depends on the bytes
/// alone; invalid sequences are replaced with a substitution marker rather
/// than failing, and bytes that already are valid UTF-8 decode to exactly
/// the text they encode.
#[verifier::external_body]
fn utf8_lossy(bytes: &[u8]) -> (r: String)
    ensures
        r@ == lossy_utf8(bytes@),
        valid_utf8(bytes@) ==> r@ == decode_utf8(bytes@),
{
    String::from_utf8_lossy(bytes).to_string()
}

/// The control channel to the Wi-Fi driver and supplicant.  The driver
/// state it acts on is global to the process and lives on the native side;
/// the channel itself is stateless.
pub struct Wifi;

impl Wifi {
    /// Whether the Wi-Fi driver is loaded, from the status of the native
    /// check.  Convention chosen here: a positive status signals a loaded
    /// driver; zero and negative statuses mean not loaded.
    pub fn is_driver_loaded(status: i32) -> (r: bool)
        ensures
            r == (status > 0),
    {
        status > 0
    }

    /// The outcome of loading the Wi-Fi driver: success exactly on a zero
    /// native status, and otherwise the status itself, never retried.
    pub fn load_driver(status: i32) -> (r: Result<(), i32>)
        ensures
            r is Ok <==> status == 0,
            r matches Err(e) ==> e == status,
    {
        if status == 0 {
            Ok(())
        } else {
            Err(status)
        }
    }

    /// The outcome of unloading the Wi-Fi driver: success exactly on a
    /// zero native status.
    pub fn unload_driver(status: i32) -> (r: Result<(), i32>)
        ensures
            r is Ok <==> status == 0,
            r matches Err(e) ==> e == status,
    {
        if status == 0 {
            Ok(())
        } else {
            Err(status)
        }
    }

    /// The outcome of starting the supplicant: success exactly on a zero
    /// native status.  The p2p-support flag only parameterizes the native
    /// call; it plays no part in this decision.
    pub fn start_supplicant(status: i32) -> (r: Result<(), i32>)
        ensures
            r is Ok <==> status == 0,
            r matches Err(e) ==> e == status,
    {
        if status == 0 {
            Ok(())
        } else {
            Err(status)
        }
    }

    /// The outcome of stopping the supplicant: success exactly on a zero
    /// native status.
    pub fn stop_supplicant(status: i32) -> (r: Result<(), i32>)
        ensures
            r is Ok <==> status == 0,
            r matches Err(e) ==> e == status,
    {
        if status == 0 {
            Ok(())
        } else {
            Err(status)
        }
    }

    /// The outcome of opening the connection to the supplicant: success
    /// exactly on a zero native status.
    pub fn connect_to_supplicant(status: i32) -> (r: Result<(), i32>)
        ensures
            r is Ok <==> status == 0,
            r matches Err(e) ==> e == status,
    {
        if status == 0 {
            Ok(())
        } else {
            Err(status)
        }
    }

    /// The event a blocking native poll delivered: `byte_count` is the
    /// poll's return value, `buffer` the fixed 4096-byte receive buffer it
    /// filled.  A count that is negative (an error), zero (no event), or
    /// past the buffer is rejected as a code-less error; any other count
    /// is accepted verbatim and the counted bytes are decoded losslessly
    /// where valid and permissively where not.
    pub fn wait_for_event(byte_count: i32, buffer: &[u8]) -> (r: Result<String, ()>)
        requires
            buffer@.len() == WIFI_REPLY_BUFFER_LEN,
        ensures
            r is Ok <==> 0 < byte_count <= WIFI_REPLY_BUFFER_LEN,
            r matches Ok(s) ==> s@ == lossy_utf8(buffer@.subrange(0, byte_count as int)),
            r matches Ok(s) ==> (valid_utf8(buffer@.subrange(0, byte_count as int)) ==> s@
                == decode_utf8(buffer@.subrange(0, byte_count as int))),
    {
        if byte_count <= 0 || byte_count > 4096 {
            return Err(());
        }
        let event = slice_subrange(buffer, 0, byte_count as usize);
        Ok(utf8_lossy(event))
    }

    /// The command text in the native string convention: the bytes of the
    /// text with the terminating null byte appended, or `None` when the
    /// text itself holds an embedded terminator.  That failure is
    /// permanent — a caller mistake, not a runtime condition — and the
    /// shell treats it as fatal, as command construction cannot recover.
    pub fn command_cstring(cmd: &str) -> (r: Option<Vec<u8>>)
        ensures
            r is Some <==> !cmd.spec_bytes().contains(0u8),
            r matches Some(b) ==> b@ == cmd.spec_bytes() + seq![0u8],
    {
        nul_terminated(cmd)
    }

    /// The reply to a driver command: `status` is the native call's
    /// return, `reply` the fixed 4096-byte reply buffer, `reply_len` the
    /// in/out length the call left behind.  A negative status is the
    /// native error itself; a reply length of zero or past the buffer is
    /// a bounds violation, reported with one fixed out-of-band code; an
    /// accepted reply is decoded exactly as an event is.
    pub fn command(status: i32, reply: &[u8], reply_len: usize) -> (r: Result<String, i32>)
        requires
            reply@.len() == WIFI_REPLY_BUFFER_LEN,
        ensures
            r is Ok <==> (status >= 0 && 0 < reply_len <= WIFI_REPLY_BUFFER_LEN),
            status < 0 ==> (r matches Err(e) && e == status),
            status >= 0 && !(0 < reply_len <= WIFI_REPLY_BUFFER_LEN) ==> (r matches Err(e) && e
                == -10000),
            r matches Ok(s) ==> s@ == lossy_utf8(reply@.subrange(0, reply_len as int)),
            r matches Ok(s) ==> (valid_utf8(reply@.subrange(0, reply_len as int)) ==> s@
                == decode_utf8(reply@.subrange(0, reply_len as int))),
    {
        if status < 0 {
            return Err(status);
        }
        if reply_len == 0 || reply_len > 4096 {
            return Err(-10000);
        }
        let text = slice_subrange(reply, 0, reply_len);
        Ok(utf8_lossy(text))
    }
}

} // verus!

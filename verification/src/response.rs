use vstd::prelude::*;
use crate::credentials::load_credentials;
use crate::credentials::load_outcome;
use crate::credentials::opt_bytes;
use crate::handshake::error_message;
use crate::handshake::message_prefix;
use crate::handshake::OrchestratorError;
use crate::json::append_json_string;
use crate::json::build_envelope;
use crate::json::health_data_json;
use crate::json::json_string_of;
use crate::json::offer_data_json;
use crate::json::render_envelope;
use crate::json::u64_to_dec;

verus! {

/// An HTTP reply of this service: a status code and a JSON body.
pub struct HttpReply {
    pub status: u16,
    pub body: String,
}

/// The reply when an offer was created: status 200, a success envelope, and
/// the offer encoding under `data.offer`.
pub fn offer_success_reply(offer: &str) -> (r: HttpReply)
    ensures
        r.status == 200,
        r.body@ == render_envelope(
            true,
            "BOLT 12 offer created successfully"@,
            Some(offer_data_json(offer@)),
        ),
{
    let mut data = String::from_str("{\"offer\":");
    append_json_string(&mut data, offer);
    data.append("}");
    proof {
        assert(data@ =~= "{\"offer\":"@ + json_string_of(offer@) + "}"@);
    }
    let body = build_envelope(true, "BOLT 12 offer created successfully", Some(&data));
    HttpReply { status: 200, body }
}

/// The reply when any step of the sequence failed: status 500, a failure
/// envelope whose message is the step's own, and no data at all.
pub fn offer_failure_reply(e: OrchestratorError, detail: &str) -> (r: HttpReply)
    ensures
        r.status == 500,
        r.body@ == render_envelope(false, message_prefix(e) + detail@, None),
{
    let msg = error_message(e, detail);
    let body = build_envelope(false, msg.as_str(), None);
    HttpReply { status: 500, body }
}

/// The health reply: status 200 whatever the credential state, and under
/// `data.config.certificates_loaded` whether loading from the given sources
/// would succeed right now.
pub fn health_reply(
    cert_env: Option<Vec<u8>>,
    cert_file: Option<Vec<u8>>,
    key_env: Option<Vec<u8>>,
    key_file: Option<Vec<u8>>,
    now: u64,
) -> (r: HttpReply)
    ensures
        r.status == 200,
        r.body@ == render_envelope(
            true,
            "Greenlight backend API is healthy"@,
            Some(
                health_data_json(
                    now as nat,
                    load_outcome(
                        opt_bytes(cert_env),
                        opt_bytes(cert_file),
                        opt_bytes(key_env),
                        opt_bytes(key_file),
                    ) is Ok,
                ),
            ),
        ),
{
    let loaded = match load_credentials(cert_env, cert_file, key_env, key_file) {
        Ok(_) => true,
        Err(_) => false,
    };
    let mut data = String::from_str("{\"config\":{\"certificates_loaded\":");
    if loaded {
        data.append("true");
    } else {
        data.append("false");
    }
    data.append("},\"status\":\"ok\",\"timestamp\":");
    let t = u64_to_dec(now);
    data.append(t.as_str());
    data.append("}");
    proof {
        assert(data@ =~= health_data_json(now as nat, loaded));
    }
    let body = build_envelope(true, "Greenlight backend API is healthy", Some(&data));
    HttpReply { status: 200, body }
}

} // verus!

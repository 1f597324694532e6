use vstd::prelude::*;

verus! {

/// The download resource used when none is given: a public 100 MB file.
pub const DEFAULT_DOWNLOAD_URL: &'static str = "http://speedtest.tele2.net/100MB.zip";

/// The endpoint that receives the upload payload.
pub const DEFAULT_UPLOAD_URL: &'static str = "https://file.io";

/// Trials run when no count is given.
pub const DEFAULT_ITERATIONS: u32 = 3;

/// Overall limit on one request, in seconds.
pub const REQUEST_TIMEOUT_SECS: u64 = 300;

/// Limit on establishing a connection, in seconds.
pub const CONNECT_TIMEOUT_SECS: u64 = 30;

/// What one run is configured with; the same for every trial.
pub struct RunConfig {
    pub iterations: u32,
    pub download_url: String,
    pub upload_url: String,
    pub request_timeout_secs: u64,
    pub connect_timeout_secs: u64,
}

impl RunConfig {
    /// A configuration for `iterations` trials against `server`, or against
    /// the default download resource; `None` when no trial is asked for.
    pub fn new(iterations: u32, server: Option<String>) -> (r: Option<RunConfig>)
        ensures
            r is None <==> iterations == 0,
            r is Some ==> {
                let c = r->Some_0;
                &&& c.iterations == iterations
                &&& c.download_url@ == match server {
                    Some(s) => s@,
                    None => DEFAULT_DOWNLOAD_URL@,
                }
                &&& c.upload_url@ == DEFAULT_UPLOAD_URL@
                &&& c.request_timeout_secs == REQUEST_TIMEOUT_SECS
                &&& c.connect_timeout_secs == CONNECT_TIMEOUT_SECS
            },
    {
        if iterations == 0 {
            return None;
        }
        let download_url = match server {
            Some(s) => s,
            None => String::from_str(DEFAULT_DOWNLOAD_URL),
        };
        Some(
            RunConfig {
                iterations,
                download_url,
                upload_url: String::from_str(DEFAULT_UPLOAD_URL),
                request_timeout_secs: REQUEST_TIMEOUT_SECS,
                connect_timeout_secs: CONNECT_TIMEOUT_SECS,
            },
        )
    }
}

/// A round trip of `elapsed_ns` nanoseconds in whole milliseconds, rounded
/// down and held at the largest count a ping holds.
pub fn ping_ms_from_nanos(elapsed_ns: u64) -> (r: u32)
    ensures
        elapsed_ns / 1000000 <= 0xffff_ffff ==> r == elapsed_ns / 1000000,
        elapsed_ns / 1000000 > 0xffff_ffff ==> r == 0xffff_ffff,
{
    let ms = elapsed_ns / 1000000;
    if ms > 0xffff_ffff {
        0xffff_ffff
    } else {
        ms as u32
    }
}

} // verus!

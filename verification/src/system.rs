//! Values that setting up the captcha system and publishing analytics draw
//! from the machine and from chance.
use vstd::prelude::*;

verus! {

/// `num_cpus::get_physical`: the number of physical cores of this machine.
/// Its documentation promises at least one; nothing else is claimed, as the
/// number depends on the machine.
#[verifier::external_body]
fn physical_cores() -> (n: usize)
    ensures
        n >= 1,
{
    num_cpus::get_physical()
}

/// Number of workers that the captcha system runs: the configured number
/// where one is configured, else the number of physical cores (at least one).
pub fn captcha_runners(configured: Option<usize>) -> (n: usize)
    ensures
        match configured {
            Some(c) => n == c,
            None => n >= 1,
        },
{
    match configured {
        Some(runners) => runners,
        None => physical_cores(),
    }
}

pub open spec fn is_lower_hex_digit(c: char) -> bool {
    ('0' <= c && c <= '9') || ('a' <= c && c <= 'f')
}

/// `s` is a version 4 (random) UUID written in lower case with hyphens:
/// 8-4-4-4-12 hex digits, the version digit `4`, the variant digit one of
/// `8`, `9`, `a`, `b`.
pub open spec fn is_hyphenated_v4_uuid(s: Seq<char>) -> bool {
    &&& s.len() == 36
    &&& forall|i: int|
        0 <= i < 36 ==> if i == 8 || i == 13 || i == 18 || i == 23 {
            s[i] == '-'
        } else {
            is_lower_hex_digit(#[trigger] s[i])
        }
    &&& s[14] == '4'
    &&& (s[19] == '8' || s[19] == '9' || s[19] == 'a' || s[19] == 'b')
}

/// `uuid::Uuid::new_v4` written with `to_string`: a random UUID of version 4
/// and RFC 4122 variant, which `Display` writes as lower-case hyphenated hex.
/// Which UUID comes out is left open: it is random.
#[verifier::external_body]
fn random_uuid() -> (s: String)
    ensures
        is_hyphenated_v4_uuid(s@),
{
    uuid::Uuid::new_v4().to_string()
}

/// A fresh pseudo ID under which a campaign's analytics are published: a random
/// version 4 UUID in its hyphenated form.
pub fn new_psuedo_id() -> (s: String)
    ensures
        is_hyphenated_v4_uuid(s@),
{
    random_uuid()
}

/// Where the captcha system keeps its state.
#[derive(Debug, Clone, PartialEq, Eq)]
pub enum CaptchaBackend {
    /// A Redis server at this URL.
    Redis { url: String },
    /// In this process, collecting garbage every `gc` seconds.
    Embedded { gc: u64 },
}

/// How to build the captcha system.
#[derive(Debug, Clone, PartialEq, Eq)]
pub struct SystemPlan {
    pub backend: CaptchaBackend,
    pub salt: String,
    pub runners: usize,
    pub queue_length: usize,
}

/// The captcha system that the settings ask for: backed by Redis where a Redis
/// URL is configured, embedded otherwise; with the configured salt and queue
/// length, and the configured number of workers or one per physical core.
pub fn plan_system(
    redis_url: Option<String>,
    gc: u64,
    salt: String,
    runners: Option<usize>,
    queue_length: usize,
) -> (p: SystemPlan)
    ensures
        p.backend == (match redis_url {
            Some(url) => CaptchaBackend::Redis { url },
            None => CaptchaBackend::Embedded { gc },
        }),
        p.salt == salt,
        p.queue_length == queue_length,
        match runners {
            Some(c) => p.runners == c,
            None => p.runners >= 1,
        },
{
    let backend = match redis_url {
        Some(url) => CaptchaBackend::Redis { url },
        None => CaptchaBackend::Embedded { gc },
    };
    SystemPlan { backend, salt, runners: captcha_runners(runners), queue_length }
}

} // verus!

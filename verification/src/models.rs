use vstd::prelude::*;

verus! {

/// One level of a captcha's defense: from `visitor_threshold` visitors on,
/// the proof of work asks for `difficulty_factor`.
#[derive(Debug, Clone, Copy, PartialEq, Eq)]
pub struct Level {
    pub visitor_threshold: u32,
    pub difficulty_factor: u32,
}

/// Data needed to register a user.
#[derive(Debug, Clone, PartialEq, Eq)]
pub struct Register {
    pub username: String,
    pub secret: String,
    pub hash: String,
    pub email: Option<String>,
}

/// How a user identifies at login.
#[derive(Debug, Clone, PartialEq, Eq)]
pub enum Login {
    Username(String),
    Email(String),
}

/// A username with its password hash.
#[derive(Debug, Clone, PartialEq, Eq)]
pub struct NameHash {
    pub username: String,
    pub hash: String,
}

/// A user's secret.
#[derive(Debug, Clone, PartialEq, Eq)]
pub struct Secret {
    pub secret: String,
}

/// A captcha configuration as stored.
#[derive(Debug, Clone, PartialEq, Eq)]
pub struct Captcha {
    pub config_id: i32,
    pub duration: i32,
    pub description: String,
    pub key: String,
}

/// Data needed to create a captcha.
#[derive(Debug, Clone, PartialEq, Eq)]
pub struct CreateCaptcha {
    pub duration: u32,
    pub description: String,
    pub key: String,
}

/// Traffic that a site owner expects.
#[derive(Debug, Clone, Copy, PartialEq, Eq)]
pub struct TrafficPattern {
    pub avg_traffic: u32,
    pub peak_sustainable_traffic: u32,
    pub broke_my_site_traffic: Option<u32>,
}

/// A captcha configured from a traffic pattern.
#[derive(Debug, Clone, PartialEq, Eq)]
pub struct EasyCaptcha {
    pub traffic_pattern: TrafficPattern,
    pub key: String,
    pub description: String,
    pub username: String,
}

/// A notification as handed to users.
#[derive(Debug, Clone, PartialEq, Eq)]
pub struct Notification {
    pub name: Option<String>,
    pub heading: Option<String>,
    pub message: Option<String>,
    pub received: Option<i64>,
    pub id: Option<i32>,
}

/// Timing of one solved proof of work, to be saved.
#[derive(Debug, Clone, PartialEq, Eq)]
pub struct CreatePerformanceAnalytics {
    pub time: u32,
    pub difficulty_factor: u32,
    pub worker_type: String,
}

/// Timing of one solved proof of work, as stored.
#[derive(Debug, Clone, PartialEq, Eq)]
pub struct PerformanceAnalytics {
    pub id: usize,
    pub time: u32,
    pub difficulty_factor: u32,
    pub worker_type: String,
}

/// Statistics of a captcha: times (unix seconds) of configuration fetches,
/// of solves and of confirmations.
#[derive(Debug, Clone, PartialEq, Eq)]
pub struct CaptchaStats {
    pub config_fetches: Vec<i64>,
    pub solves: Vec<i64>,
    pub confirms: Vec<i64>,
}

/// Request to mark a notification read.
#[derive(Debug, Clone, Copy, PartialEq, Eq)]
pub struct MarkReadReq {
    pub id: i32,
}

} // verus!

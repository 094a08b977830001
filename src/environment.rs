//! Deployment settings, and the controller addresses derived from them.

use crate::text::{lower_of, same_text, starts_with, has_prefix, to_lowercase, trim, trimmed_of};
use vstd::prelude::*;
use vstd::string::*;

verus! {

/// The settings of one deployment. The time zone is held by its IANA name.
#[derive(Debug, Clone)]
pub struct Environment {
    pub unifi_controller_url: String,
    pub unifi_site_id: String,
    pub unifi_username: String,
    pub unifi_password: String,
    pub backend_bind_host: String,
    pub backend_bind_port: u16,
    pub rolling_voucher_duration_minutes: u64,
    pub unifi_has_valid_cert: bool,
    pub timezone: String,
}

pub open spec fn bool_word(s: Seq<char>) -> Option<bool> {
    let w = lower_of(trimmed_of(s));
    if w == "true"@ || w == "1"@ || w == "yes"@ {
        Some(true)
    } else if w == "false"@ || w == "0"@ || w == "no"@ {
        Some(false)
    } else {
        None
    }
}

/// Reads a yes/no setting: `true`, `1`, `yes` or `false`, `0`, `no`, in any
/// case and with surrounding white space.
pub fn parse_bool(s: &str) -> (r: Result<bool, String>)
    ensures
        r matches Ok(b) ==> bool_word(s@) == Some(b),
        r is Err <==> bool_word(s@) is None,
        r matches Err(e) ==> e@ == "Boolean value must be true or false, found: "@ + s@,
{
    let t = trim(s);
    let w = to_lowercase(t.as_str());
    let w = w.as_str();
    if same_text(w, "true") || same_text(w, "1") || same_text(w, "yes") {
        Ok(true)
    } else if same_text(w, "false") || same_text(w, "0") || same_text(w, "no") {
        Ok(false)
    } else {
        let mut e = String::from_str("Boolean value must be true or false, found: ");
        e.append(s);
        Err(e)
    }
}

/// The controller address must name its scheme.
pub fn check_controller_url(url: &str) -> (r: Result<(), String>)
    ensures
        r is Ok <==> has_prefix(url@, "http://"@) || has_prefix(url@, "https://"@),
        r matches Err(e) ==> e@ == "UNIFI_CONTROLLER_URL must start with http:// or https://"@,
{
    if starts_with(url, "http://") || starts_with(url, "https://") {
        Ok(())
    } else {
        Err(String::from_str("UNIFI_CONTROLLER_URL must start with http:// or https://"))
    }
}

/// The site identifier used in command paths: `default` in whatever case is
/// written `default`; any other identifier is kept.
pub fn resolve_site_id(site: &str) -> (r: String)
    ensures
        lower_of(site@) == "default"@ ==> r@ == "default"@,
        lower_of(site@) != "default"@ ==> r@ == site@,
{
    let lower = to_lowercase(site);
    if same_text(lower.as_str(), "default") {
        String::from_str("default")
    } else {
        String::from_str(site)
    }
}

/// The address of the login exchange.
pub fn login_url(controller: &str) -> (r: String)
    ensures
        r@ == controller@ + "/api/login"@,
{
    let mut u = String::from_str(controller);
    u.append("/api/login");
    u
}

/// The address under which the controller's sites live.
pub fn sites_api_url(controller: &str) -> (r: String)
    ensures
        r@ == controller@ + "/api/s"@,
{
    let mut u = String::from_str(controller);
    u.append("/api/s");
    u
}

/// The address of the voucher listing of a site.
pub fn voucher_list_url(controller: &str, site: &str) -> (r: String)
    ensures
        r@ == controller@ + "/api/s"@ + "/"@ + site@ + "/stat/voucher"@,
{
    let mut u = sites_api_url(controller);
    u.append("/");
    u.append(site);
    u.append("/stat/voucher");
    u
}

/// The address of the voucher commands of a site; the site identifier is
/// resolved first.
pub fn voucher_api_url(controller: &str, site: &str) -> (r: String)
    ensures
        lower_of(site@) == "default"@ ==> r@ == controller@ + "/api/s"@ + "/"@ + "default"@ + "/cmd/hotspot"@,
        lower_of(site@) != "default"@ ==> r@ == controller@ + "/api/s"@ + "/"@ + site@ + "/cmd/hotspot"@,
{
    let resolved = resolve_site_id(site);
    let mut u = sites_api_url(controller);
    u.append("/");
    u.append(resolved.as_str());
    u.append("/cmd/hotspot");
    u
}

} // verus!

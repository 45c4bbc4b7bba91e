//! The small OAuth proxy that keeps the client secret off the desktop: its
//! settings, the pages it answers with, and how it reads the token
//! endpoint's answer. Serving HTTP is the caller's part.

use vstd::prelude::*;
use vstd::utf8::encode_utf8;

use crate::auth::percent_encoded;
use crate::json::{self, Json};
use crate::text::{self, html_escaped, opt_str, trimmed};

verus! {

/// A required setting: its trimmed value, which must not be empty.
pub open spec fn required_setting(name: Seq<char>, value: Option<Seq<char>>) -> Result<Seq<char>, Seq<char>> {
    match value {
        None => Err("Missing required env var "@ + name),
        Some(v) => if trimmed(v).len() == 0 {
            Err("Env var "@ + name + " cannot be empty"@)
        } else {
            Ok(trimmed(v))
        },
    }
}

/// The setting `name` whose environment value is `value`.
pub fn env_required(name: &str, value: Option<&str>) -> (r: Result<String, String>)
    ensures
        match r {
            Ok(v) => required_setting(name@, crate::goloom::opt_view(value)) == Ok::<Seq<char>, Seq<char>>(v@),
            Err(e) => required_setting(name@, crate::goloom::opt_view(value)) == Err::<Seq<char>, Seq<char>>(e@),
        },
{
    match value {
        None => {
            let mut m = "Missing required env var ".to_owned();
            m.append(name);
            Err(m)
        },
        Some(v) => {
            let t = text::trim(v);
            if t.as_str().is_empty() {
                let mut m = "Env var ".to_owned();
                m.append(name);
                m.append(" cannot be empty");
                Err(m)
            } else {
                Ok(t)
            }
        },
    }
}

/// An optional setting: its trimmed value when not empty, else `default`.
pub fn env_optional(value: Option<&str>, default_value: &str) -> (r: String)
    ensures
        r@ == match crate::auth::env_value(crate::goloom::opt_view(value)) {
            Some(v) => v,
            None => default_value@,
        },
{
    match value {
        Some(v) => {
            let t = text::trim(v);
            if t.as_str().is_empty() {
                default_value.to_owned()
            } else {
                t
            }
        },
        None => default_value.to_owned(),
    }
}

/// Where `/oauth/start` sends the browser: the code flow with the proxy's
/// client, redirect URI and scopes.
pub open spec fn start_url(authorize_url: Seq<char>, client_id: Seq<char>, redirect_uri: Seq<char>, scopes: Seq<char>) -> Seq<char> {
    authorize_url + "?response_type=code&client_id="@ + percent_encoded(encode_utf8(client_id))
        + "&redirect_uri="@ + percent_encoded(encode_utf8(redirect_uri)) + "&scope="@
        + percent_encoded(encode_utf8(scopes)) + "&force_confirm=yes"@
}

pub fn oauth_start_url(authorize_url: &str, client_id: &str, redirect_uri: &str, scopes: &str) -> (u: String)
    ensures
        u@ == start_url(authorize_url@, client_id@, redirect_uri@, scopes@),
{
    let mut u = authorize_url.to_owned();
    u.append("?response_type=code&client_id=");
    u.append(crate::auth::url_encode(client_id).as_str());
    u.append("&redirect_uri=");
    u.append(crate::auth::url_encode(redirect_uri).as_str());
    u.append("&scope=");
    u.append(crate::auth::url_encode(scopes).as_str());
    u.append("&force_confirm=yes");
    u
}

/// The page `/oauth/callback` shows: the provider's error and its
/// description (or `unknown error`), or the code to paste into the app;
/// every inserted text is escaped.
pub open spec fn callback_page(code: Option<Seq<char>>, error: Option<Seq<char>>, description: Option<Seq<char>>) -> Seq<char> {
    match error {
        Some(e) => "<html><body><h2>OAuth error</h2><p>"@ + html_escaped(e) + "</p><p>"@ + html_escaped(
            match description {
                Some(d) => d,
                None => "unknown error"@,
            },
        ) + "</p><p>Return to the app and retry.</p></body></html>"@,
        None => "<html><body><h2>Authorization code received</h2><p>Copy this code and paste it into the app:</p><pre style=\"font-size:20px;\">"@
            + html_escaped(
            match code {
                Some(c) => c,
                None => Seq::empty(),
            },
        ) + "</pre><p>You can close this tab.</p></body></html>"@,
    }
}

pub fn oauth_callback_page(code: Option<&str>, error: Option<&str>, description: Option<&str>) -> (html: String)
    ensures
        html@ == callback_page(
            crate::goloom::opt_view(code),
            crate::goloom::opt_view(error),
            crate::goloom::opt_view(description),
        ),
{
    match error {
        Some(e) => {
            let mut h = "<html><body><h2>OAuth error</h2><p>".to_owned();
            h.append(text::html_escape(e).as_str());
            h.append("</p><p>");
            let d = match description {
                Some(d) => d,
                None => "unknown error",
            };
            h.append(text::html_escape(d).as_str());
            h.append("</p><p>Return to the app and retry.</p></body></html>");
            h
        },
        None => {
            let mut h = "<html><body><h2>Authorization code received</h2><p>Copy this code and paste it into the app:</p><pre style=\"font-size:20px;\">".to_owned();
            let c = match code {
                Some(c) => c,
                None => "",
            };
            h.append(text::html_escape(c).as_str());
            h.append("</pre><p>You can close this tab.</p></body></html>");
            proof {
                reveal_strlit("");
                assert(""@ =~= Seq::<char>::empty());
            }
            h
        },
    }
}

/// The token the proxy hands back to the app.
#[derive(Clone, Debug, PartialEq)]
pub struct ExchangeResponse {
    pub access_token: String,
    pub refresh_token: Option<String>,
    pub expires_in: u64,
    pub token_type: String,
    pub user_id: Option<String>,
}

/// Why the proxy refuses an exchange: the HTTP status and the message.
#[derive(Clone, Debug, PartialEq)]
pub enum ProxyRefusal {
    /// 400 and a message.
    BadRequest(String),
    /// 502 and a message.
    BadGateway(String),
    /// 502 with the upstream answer, written out as JSON.
    UpstreamError,
}

/// A code to exchange must not be blank.
pub fn check_code(code: &str) -> (r: Result<String, ProxyRefusal>)
    ensures
        match r {
            Ok(c) => !text::all_ws(code@) && c@ == trimmed(code@),
            Err(e) => text::all_ws(code@) && (e matches ProxyRefusal::BadRequest(m) && m@ == "code is required"@),
        },
{
    if text::is_blank(code) {
        Err(ProxyRefusal::BadRequest("code is required".to_owned()))
    } else {
        Ok(text::trim(code))
    }
}

/// How the proxy reads the token endpoint's answer: a failure status is an
/// upstream error; an `error` is reported with its description; a missing
/// `access_token` is a gateway error; otherwise the token (an hour by
/// default, no user id).
pub open spec fn proxied(status_ok: bool, j: Json, r: Result<ExchangeResponse, ProxyRefusal>) -> bool {
    if !status_ok {
        r == Err::<ExchangeResponse, ProxyRefusal>(ProxyRefusal::UpstreamError)
    } else {
        match json::str_field(j, "error"@) {
            Some(err) => r matches Err(ProxyRefusal::BadRequest(m)) && m@ == "oauth exchange failed: "@
                + err + " ("@ + crate::auth::description_or(j, "unknown error"@) + ")"@,
            None => match json::str_field(j, "access_token"@) {
                None => r matches Err(ProxyRefusal::BadGateway(m)) && m@ == "missing access_token"@,
                Some(a) => r matches Ok(t) && t.access_token@ == a && opt_str(t.refresh_token)
                    == json::str_field(j, "refresh_token"@) && t.expires_in == (match json::u64_field(
                    j,
                    "expires_in"@,
                ) {
                    Some(n) => n,
                    None => 3600,
                }) && t.token_type@ == "Bearer"@ && t.user_id is None,
            },
        }
    }
}

pub fn exchange_answer(status_ok: bool, j: &Json) -> (r: Result<ExchangeResponse, ProxyRefusal>)
    ensures
        proxied(status_ok, *j, r),
{
    if !status_ok {
        return Err(ProxyRefusal::UpstreamError);
    }
    match json::get_str(j, "error") {
        Some(err) => {
            let mut m = "oauth exchange failed: ".to_owned();
            m.append(err.as_str());
            m.append(" (");
            let d = match json::get_str(j, "error_description") {
                Some(d) => d,
                None => "unknown error".to_owned(),
            };
            m.append(d.as_str());
            m.append(")");
            return Err(ProxyRefusal::BadRequest(m));
        },
        None => {},
    }
    let access_token = match json::get_str(j, "access_token") {
        Some(a) => a,
        None => {
            return Err(ProxyRefusal::BadGateway("missing access_token".to_owned()));
        },
    };
    Ok(ExchangeResponse {
        access_token,
        refresh_token: json::get_str(j, "refresh_token"),
        expires_in: match json::get_u64(j, "expires_in") {
            Some(n) => n,
            None => 3600,
        },
        token_type: "Bearer".to_owned(),
        user_id: None,
    })
}

} // verus!

//! Connection configuration, captured at build time and consumed once per
//! connect attempt.

use vstd::prelude::*;

verus! {

/// The options of a connection, apart from the target URL.
#[derive(Clone)]
pub struct WStompConfigOpts {
    /// Whether to force a TLS client for the handshake.
    pub ssl: bool,
    /// A bearer-style token, sent as an Authorization header when present.
    pub auth_token: Option<String>,
    /// The STOMP login; attached to CONNECT only together with a passcode.
    pub login: Option<String>,
    /// The STOMP passcode; attached to CONNECT only together with a login.
    pub passcode: Option<String>,
    /// Extra headers for the CONNECT frame.
    pub additional_headers: Vec<(String, String)>,
    /// A pre-built transport client to use instead of a default one.
    pub client: Option<awc::Client>,
}

impl Default for WStompConfigOpts {
    /// No TLS forcing, no credentials, no token, no headers, no client.
    fn default() -> (r: Self)
        ensures
            r.ssl == false,
            r.auth_token is None,
            r.login is None,
            r.passcode is None,
            r.additional_headers@ == Seq::<(String, String)>::empty(),
            r.client is None,
    {
        let r = WStompConfigOpts {
            ssl: false,
            auth_token: None,
            login: None,
            passcode: None,
            additional_headers: Vec::new(),
            client: None,
        };
        proof {
            assert(r.additional_headers@ =~= Seq::<(String, String)>::empty());
        }
        r
    }
}

/// A connection configuration: the target URL and the chained options.
pub struct WStompConfig {
    /// The target URL.
    pub url: String,
    /// The options gathered so far.
    pub opts: WStompConfigOpts,
}

impl WStompConfig {
    /// A configuration for the given URL, with default options.
    pub fn new(url: String) -> (c: WStompConfig)
        ensures
            c.url == url,
            c.opts.ssl == false,
            c.opts.auth_token is None,
            c.opts.login is None,
            c.opts.passcode is None,
            c.opts.additional_headers@ == Seq::<(String, String)>::empty(),
            c.opts.client is None,
    {
        WStompConfig { url, opts: WStompConfigOpts::default() }
    }

    /// The target URL.
    pub fn get_url(&self) -> (r: &String)
        ensures
            *r == self.url,
    {
        &self.url
    }

    /// The options gathered so far.
    pub fn get_opts(&self) -> (r: &WStompConfigOpts)
        ensures
            *r == self.opts,
    {
        &self.opts
    }

    /// Split the configuration into its URL and options.
    pub fn into_inner(self) -> (r: (String, WStompConfigOpts))
        ensures
            r.0 == self.url,
            r.1 == self.opts,
    {
        (self.url, self.opts)
    }

    /// Force a TLS client for the handshake.
    pub fn ssl(self) -> (c: WStompConfig)
        ensures
            c == (WStompConfig { opts: (WStompConfigOpts { ssl: true, ..self.opts }), ..self }),
    {
        WStompConfig { opts: WStompConfigOpts { ssl: true, ..self.opts }, ..self }
    }

    /// Attach a bearer-style token, sent as an Authorization header.
    pub fn auth_token(self, auth_token: String) -> (c: WStompConfig)
        ensures
            c == (WStompConfig {
                opts: (WStompConfigOpts { auth_token: Some(auth_token), ..self.opts }),
                ..self
            }),
    {
        WStompConfig { opts: WStompConfigOpts { auth_token: Some(auth_token), ..self.opts }, ..self }
    }

    /// Set the STOMP login; it reaches CONNECT only beside a passcode.
    pub fn login(self, login: String) -> (c: WStompConfig)
        ensures
            c == (WStompConfig {
                opts: (WStompConfigOpts { login: Some(login), ..self.opts }),
                ..self
            }),
    {
        WStompConfig { opts: WStompConfigOpts { login: Some(login), ..self.opts }, ..self }
    }

    /// Set the STOMP passcode; it reaches CONNECT only beside a login.
    pub fn passcode(self, passcode: String) -> (c: WStompConfig)
        ensures
            c == (WStompConfig {
                opts: (WStompConfigOpts { passcode: Some(passcode), ..self.opts }),
                ..self
            }),
    {
        WStompConfig { opts: WStompConfigOpts { passcode: Some(passcode), ..self.opts }, ..self }
    }

    /// Append extra headers for the CONNECT frame, keeping earlier ones.
    pub fn add_headers(self, additional_headers: Vec<(String, String)>) -> (c: WStompConfig)
        ensures
            c.url == self.url,
            c.opts.ssl == self.opts.ssl,
            c.opts.auth_token == self.opts.auth_token,
            c.opts.login == self.opts.login,
            c.opts.passcode == self.opts.passcode,
            c.opts.client == self.opts.client,
            c.opts.additional_headers@ == self.opts.additional_headers@ + additional_headers@,
    {
        let mut me = self;
        append_pairs(&mut me.opts.additional_headers, additional_headers);
        me
    }

    /// Use this pre-built transport client instead of a default one.
    pub fn client(self, client: awc::Client) -> (c: WStompConfig)
        ensures
            c == (WStompConfig {
                opts: (WStompConfigOpts { client: Some(client), ..self.opts }),
                ..self
            }),
    {
        WStompConfig { opts: WStompConfigOpts { client: Some(client), ..self.opts }, ..self }
    }
}

/// Move every pair of `src` onto the end of `dst`, in order.
fn append_pairs(dst: &mut Vec<(String, String)>, src: Vec<(String, String)>)
    ensures
        final(dst)@ == old(dst)@ + src@,
{
    let ghost pre = dst@;
    let ghost src0 = src@;
    let mut rest = src;
    while rest.len() > 0
        invariant
            pre + src0 == dst@ + rest@,
        decreases rest.len(),
    {
        let p = rest.remove(0);
        dst.push(p);
        proof {
            assert(pre + src0 =~= dst@ + rest@);
        }
    }
    proof {
        assert(dst@ =~= pre + src0);
    }
}

} // verus!

use vstd::prelude::*;
use vstd::string::StringExecFns;

use crate::text::spec_decimal;
use crate::text::u16_to_string;

verus! {

/// The four parameters of one "top artists" query.
pub struct Config {
    pub api_key: String,
    pub username: String,
    pub limit: u16,
    pub period: String,
}

/// The request URI for a configuration: a fixed endpoint and method with the
/// four parameters interpolated as query fields, the response format fixed to
/// JSON.  No URL-encoding is applied; values are used as given.
pub open spec fn spec_uri(c: Config) -> Seq<char> {
    "http://ws.audioscrobbler.com/2.0/?method=user.gettopartists&user="@ + c.username@
        + "&api_key="@ + c.api_key@ + "&format=json&period="@ + c.period@ + "&limit="@
        + spec_decimal(c.limit as nat)
}

impl Config {
    /// Bundles the four query parameters; nothing is validated here.
    pub fn new(api_key: String, username: String, limit: u16, period: String) -> (c: Config)
        ensures
            c.api_key@ == api_key@,
            c.username@ == username@,
            c.limit == limit,
            c.period@ == period@,
    {
        Config { api_key, username, limit, period }
    }

    /// The exact request URI, per [`spec_uri`].
    pub fn get_uri(&self) -> (uri: String)
        ensures
            uri@ == spec_uri(*self),
    {
        let mut uri = String::from_str(
            "http://ws.audioscrobbler.com/2.0/?method=user.gettopartists&user=",
        );
        uri.append(self.username.as_str());
        uri.append("&api_key=");
        uri.append(self.api_key.as_str());
        uri.append("&format=json&period=");
        uri.append(self.period.as_str());
        uri.append("&limit=");
        let limit_text = u16_to_string(self.limit);
        uri.append(limit_text.as_str());
        proof {
            assert(uri@ =~= spec_uri(*self));
        }
        uri
    }
}

} // verus!

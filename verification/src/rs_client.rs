use vstd::prelude::*;
use vstd::string::*;

verus! {

#[verifier::external_type_specification]
#[verifier::external_body]
pub struct ExUrlParseError(url::ParseError);

/// What can go wrong when talking to a Remote Settings server.
#[derive(Debug)]
pub enum ClientError {
    /// The request could not be sent; the text says why.
    RequestError(String),
    /// A URL could not be parsed.
    UrlParsingError(url::ParseError),
    /// The server asked the client to back off for this many more seconds.
    BackoffError(u64),
    /// The server's response was not usable; the text says why.
    ResponseError(String),
}


/// The character of a decimal digit.
pub open spec fn digit_char(d: int) -> char {
    "0123456789"@[d]
}

/// The decimal notation of a number, without leading zeros.
pub open spec fn decimal(n: nat) -> Seq<char>
    decreases n,
{
    if n < 10 {
        seq![digit_char(n as int)]
    } else {
        decimal(n / 10) + seq![digit_char((n % 10) as int)]
    }
}

/// Writes a number in decimal notation.
pub fn decimal_string(n: u64) -> (s: String)
    ensures
        s@ == decimal(n as nat),
    decreases n,
{
    let digits = "0123456789";
    proof {
        reveal_strlit("0123456789");
    }
    if n < 10 {
        let d = n as usize;
        let t = digits.substring_char(d, d + 1);
        assert(t@ =~= seq![digit_char(n as int)]);
        t.to_owned()
    } else {
        let mut s = decimal_string(n / 10);
        let d = (n % 10) as usize;
        let t = digits.substring_char(d, d + 1);
        assert(t@ =~= seq![digit_char((n % 10) as int)]);
        s.append(t);
        s
    }
}

impl ClientError {
    /// The text of the error, as it is shown to users.
    pub fn message(&self) -> (m: String)
        ensures
            match self {
                ClientError::RequestError(t) => m@ == "Error sending request: "@ + t@,
                ClientError::UrlParsingError(_) => m@.len() >= "Error parsing URL: "@.len()
                    && m@.subrange(0, "Error parsing URL: "@.len() as int) == "Error parsing URL: "@,
                ClientError::BackoffError(n) => m@ == "Server asked the client to back off ("@ + decimal(
                    *n as nat,
                ) + " seconds remaining)"@,
                ClientError::ResponseError(t) => m@ == "Error in network response: "@ + t@,
            },
    {
        match self {
            ClientError::RequestError(t) => String::from_str("Error sending request: ").concat(t.as_str()),
            ClientError::UrlParsingError(e) => {
                let text = e.to_string();
                let m = String::from_str("Error parsing URL: ").concat(text.as_str());
                assert(m@.subrange(0, "Error parsing URL: "@.len() as int) =~= "Error parsing URL: "@);
                m
            },
            ClientError::BackoffError(n) => {
                let m = String::from_str("Server asked the client to back off (").concat(
                    decimal_string(*n).as_str(),
                );
                m.concat(" seconds remaining)")
            },
            ClientError::ResponseError(t) => String::from_str("Error in network response: ").concat(
                t.as_str(),
            ),
        }
    }
}

} // verus!

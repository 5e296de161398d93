use vstd::prelude::*;

verus! {

/// The decimal digits of `n`, most significant first, without leading zeros.
pub open spec fn decimal(n: nat) -> Seq<char>
    decreases n,
{
    if n < 10 {
        seq![digit_char(n)]
    } else {
        decimal(n / 10).push(digit_char(n % 10))
    }
}

pub open spec fn digit_char(d: nat) -> char {
    if d == 0 {
        '0'
    } else if d == 1 {
        '1'
    } else if d == 2 {
        '2'
    } else if d == 3 {
        '3'
    } else if d == 4 {
        '4'
    } else if d == 5 {
        '5'
    } else if d == 6 {
        '6'
    } else if d == 7 {
        '7'
    } else if d == 8 {
        '8'
    } else {
        '9'
    }
}

fn digit(d: u16) -> (r: &'static str)
    requires
        d < 10,
    ensures
        r@ == seq![digit_char(d as nat)],
{
    match d {
        0 => {
            proof {
                reveal_strlit("0");
            }
            "0"
        },
        1 => {
            proof {
                reveal_strlit("1");
            }
            "1"
        },
        2 => {
            proof {
                reveal_strlit("2");
            }
            "2"
        },
        3 => {
            proof {
                reveal_strlit("3");
            }
            "3"
        },
        4 => {
            proof {
                reveal_strlit("4");
            }
            "4"
        },
        5 => {
            proof {
                reveal_strlit("5");
            }
            "5"
        },
        6 => {
            proof {
                reveal_strlit("6");
            }
            "6"
        },
        7 => {
            proof {
                reveal_strlit("7");
            }
            "7"
        },
        8 => {
            proof {
                reveal_strlit("8");
            }
            "8"
        },
        _ => {
            proof {
                reveal_strlit("9");
            }
            "9"
        },
    }
}

/// Writes `n` in decimal.
pub fn decimal_string(n: u16) -> (r: String)
    ensures
        r@ == decimal(n as nat),
    decreases n,
{
    if n < 10 {
        let mut s = String::new();
        s.append(digit(n));
        s
    } else {
        let mut s = decimal_string(n / 10);
        s.append(digit(n % 10));
        s
    }
}

} // verus!

verus! {

/// An error reported by Bing Maps in a request's response.
#[derive(Debug, Clone, Copy, PartialEq, Eq, Structural)]
pub struct RequestError {
    /// The HTTP status in the response.
    pub http_status: u16,
    /// If should_wait is true, the service may normally have a result for this
    /// query but the servers are currently overloaded. Wait a few seconds and
    /// try again.
    pub should_wait: bool,
}

impl Default for RequestError {
    fn default() -> (r: RequestError)
        ensures
            r.http_status == 0,
            !r.should_wait,
    {
        RequestError { http_status: 0, should_wait: false }
    }
}

pub open spec fn request_error_text(status: u16) -> Seq<char> {
    "RequestError("@ + decimal(status as nat) + ")"@
}

impl RequestError {
    /// A one-line description, such as `RequestError(503)`.
    pub fn message(&self) -> (r: String)
        ensures
            r@ == request_error_text(self.http_status),
    {
        let mut s = String::from_str("RequestError(");
        let n = decimal_string(self.http_status);
        s.append(n.as_str());
        s.append(")");
        s
    }
}

/// An error encountered when communicating with the Bing Maps API.
#[derive(Debug, Clone)]
pub enum Error {
    /// An error reported by Bing Maps.
    Bing(RequestError),
    /// A networking error communicating with the Bing Maps server.
    Http(String),
    /// An error reading the response body.
    Io(String),
    /// An error converting between wire format and Rust types.
    Conversion(String),
}

pub open spec fn description_of(e: Error) -> Seq<char> {
    match e {
        Error::Bing(_) => "error reported by bing maps"@,
        Error::Http(_) => "error communicating with bing maps"@,
        Error::Io(_) => "error reading response from bing maps"@,
        Error::Conversion(_) => "error converting between wire format and Rust types"@,
    }
}

pub open spec fn detail_of(e: Error) -> Seq<char> {
    match e {
        Error::Bing(r) => request_error_text(r.http_status),
        Error::Http(m) => m@,
        Error::Io(m) => m@,
        Error::Conversion(m) => m@,
    }
}

impl Error {
    /// A short description of the kind of error.
    pub fn description(&self) -> (r: &'static str)
        ensures
            r@ == description_of(*self),
    {
        match self {
            Error::Bing(_) => "error reported by bing maps",
            Error::Http(_) => "error communicating with bing maps",
            Error::Io(_) => "error reading response from bing maps",
            Error::Conversion(_) => "error converting between wire format and Rust types",
        }
    }

    /// The description followed by the details of the underlying error.
    pub fn message(&self) -> (r: String)
        ensures
            r@ == description_of(*self) + ": "@ + detail_of(*self),
    {
        let mut s = String::from_str(self.description());
        s.append(": ");
        match self {
            Error::Bing(e) => {
                let m = e.message();
                s.append(m.as_str());
            },
            Error::Http(m) => s.append(m.as_str()),
            Error::Io(m) => s.append(m.as_str()),
            Error::Conversion(m) => s.append(m.as_str()),
        }
        s
    }
}

impl From<RequestError> for Error {
    fn from(err: RequestError) -> (r: Error) {
        Error::Bing(err)
    }
}

impl vstd::std_specs::convert::FromSpecImpl<RequestError> for Error {
    open spec fn obeys_from_spec() -> bool {
        true
    }

    open spec fn from_spec(err: RequestError) -> Error {
        Error::Bing(err)
    }
}

} // verus!

verus! {

/// A response whose body was read in full.
pub struct Reply {
    /// The numeric HTTP status.
    pub status: u16,
    /// Each raw value of the `X-MS-BM-WS-INFO` header, in order; empty when
    /// the header is absent.
    pub wait_info: Vec<Vec<u8>>,
    /// The response body.
    pub body: String,
}

pub open spec fn is_success(status: u16) -> bool {
    200 <= status <= 299
}

/// Whether one of the header values is exactly `1`.
pub open spec fn signals_wait(lines: Seq<Seq<u8>>) -> bool {
    exists|i: int| 0 <= i < lines.len() && #[trigger] lines[i] == seq![49u8]
}

/// The error that a failed reply stands for.
pub open spec fn service_error(status: u16, lines: Seq<Seq<u8>>) -> Error {
    Error::Bing(RequestError { http_status: status, should_wait: signals_wait(lines) })
}

/// Reads the overload hint out of the header values.
pub fn should_wait(lines: &Vec<Vec<u8>>) -> (r: bool)
    ensures
        r == signals_wait(lines.deep_view()),
{
    let mut found = false;
    let mut i: usize = 0;
    while i < lines.len()
        invariant
            i <= lines.len(),
            found <==> exists|j: int| 0 <= j < i && #[trigger] lines.deep_view()[j] == seq![49u8],
        decreases lines.len() - i,
    {
        let line = &lines[i];
        if line.len() == 1 && line[0] == 49u8 {
            assert(line@ =~= seq![49u8]);
            assert(lines.deep_view()[i as int] == seq![49u8]);
            found = true;
        } else {
            assert(lines.deep_view()[i as int] != seq![49u8]) by {
                if line.len() == 1 {
                    assert(line@[0] != seq![49u8][0]);
                }
            }
        }
        i = i + 1;
    }
    found
}

/// Classifies a reply: a status in `200..=299` hands the body on for
/// decoding; any other status is an error reported by the service, which
/// carries the status and the overload hint and leaves the body unread.
pub fn check_reply(reply: Reply) -> (r: Result<String, Error>)
    ensures
        is_success(reply.status) ==> r == Ok::<String, Error>(reply.body),
        !is_success(reply.status) ==> r == Err::<String, Error>(
            service_error(reply.status, reply.wait_info.deep_view()),
        ),
{
    if 200 <= reply.status && reply.status <= 299 {
        Ok(reply.body)
    } else {
        let wait = should_wait(&reply.wait_info);
        Err(Error::from(RequestError { http_status: reply.status, should_wait: wait }))
    }
}

} // verus!

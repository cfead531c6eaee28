//! Response bodies.

use vstd::prelude::*;
use vstd::string::*;

verus! {

/// The envelope of every answer: `code` 0 means success.
#[derive(Debug)]
pub struct ApiJsonResponse<T> {
    msg: String,
    code: i32,
    data: Option<T>,
}

impl<T> ApiJsonResponse<T> {
    /// The message, as a mathematical value.
    pub closed spec fn spec_msg(&self) -> Seq<char> {
        self.msg@
    }

    /// The code, as a mathematical value.
    pub closed spec fn spec_code(&self) -> i32 {
        self.code
    }

    /// The payload, as a mathematical value.
    pub closed spec fn spec_data(&self) -> Option<T> {
        self.data
    }

    /// The message; empty on success.
    pub fn msg(&self) -> (r: &str)
        ensures
            r@ == self.spec_msg(),
    {
        self.msg.as_str()
    }

    pub fn code(&self) -> (r: i32)
        ensures
            r == self.spec_code(),
    {
        self.code
    }

    pub fn data(&self) -> (r: Option<&T>)
        ensures
            match r {
                Some(d) => self.spec_data() == Some(*d),
                None => self.spec_data() is None,
            },
    {
        self.data.as_ref()
    }

    /// Takes the payload out.
    pub fn into_data(self) -> (r: Option<T>)
        ensures
            r == self.spec_data(),
    {
        self.data
    }

    /// Success without a payload.
    pub fn empty_success() -> (r: Self)
        ensures
            r.spec_msg() == Seq::<char>::empty(),
            r.spec_code() == 0,
            r.spec_data() is None,
    {
        Self { msg: String::new(), code: 0, data: None }
    }

    /// Success with `d` as payload.
    pub fn success(d: T) -> (r: Self)
        ensures
            r.spec_msg() == Seq::<char>::empty(),
            r.spec_code() == 0,
            r.spec_data() == Some(d),
    {
        Self { msg: String::new(), code: 0, data: Some(d) }
    }

    /// Success with a payload that may be absent.
    pub fn success_optional(d: Option<T>) -> (r: Self)
        ensures
            r.spec_msg() == Seq::<char>::empty(),
            r.spec_code() == 0,
            r.spec_data() == d,
    {
        Self { msg: String::new(), code: 0, data: d }
    }

    /// Failure: the given code and message, no payload.
    pub fn empty_error(code: i32, msg: &str) -> (r: Self)
        ensures
            r.spec_msg() == msg@,
            r.spec_code() == code,
            r.spec_data() is None,
    {
        Self { msg: msg.to_owned(), code, data: None }
    }
}

/// One disk of a node.
#[derive(Debug, Default, Clone, PartialEq, Eq)]
pub struct SystemDiskInfo {
    pub name: String,
    /// Free bytes.
    pub free: u64,
    /// Total bytes.
    pub total: u64,
    pub mount: String,
    pub removeable: bool,
}

/// One network interface of a node.
#[derive(Debug, Default, Clone, PartialEq, Eq)]
pub struct SystemNetworkInfo {
    pub name: String,
    pub ips: Vec<String>,
    pub mac: String,
    pub total_out: u64,
    pub total_in: u64,
}

/// A node as operators see it: the record without its token.
#[derive(Debug, Default)]
pub struct NodeItemResponse {
    pub name: String,
    pub host_name: String,
    pub ip: String,
    pub port: u16,
    pub version: String,
    pub arch: String,
    pub os: String,
    pub os_version: String,
    pub os_kernel: String,
    pub status: bool,
}

/// A node item as a mathematical value.
pub struct NodeItemResponseView {
    pub name: Seq<char>,
    pub host_name: Seq<char>,
    pub ip: Seq<char>,
    pub port: u16,
    pub version: Seq<char>,
    pub arch: Seq<char>,
    pub os: Seq<char>,
    pub os_version: Seq<char>,
    pub os_kernel: Seq<char>,
    pub status: bool,
}

impl View for NodeItemResponse {
    type V = NodeItemResponseView;

    open spec fn view(&self) -> NodeItemResponseView {
        NodeItemResponseView {
            name: self.name@,
            host_name: self.host_name@,
            ip: self.ip@,
            port: self.port,
            version: self.version@,
            arch: self.arch@,
            os: self.os@,
            os_version: self.os_version@,
            os_kernel: self.os_kernel@,
            status: self.status,
        }
    }
}

impl Clone for NodeItemResponse {
    fn clone(&self) -> (r: Self)
        ensures
            r@ == self@,
    {
        NodeItemResponse {
            name: self.name.clone(),
            host_name: self.host_name.clone(),
            ip: self.ip.clone(),
            port: self.port,
            version: self.version.clone(),
            arch: self.arch.clone(),
            os: self.os.clone(),
            os_version: self.os_version.clone(),
            os_kernel: self.os_kernel.clone(),
            status: self.status,
        }
    }
}

/// The answer to a registration: nothing but the envelope.
#[derive(Debug, Default, Clone, Copy, PartialEq, Eq)]
pub struct RegisterNodeResponse {}

} // verus!

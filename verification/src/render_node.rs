//! The handle to an open render node.
//!
//! Opening the device is the caller's business: the library says which path
//! to open and how, and keeps what it needs of the open device afterwards,
//! which is its identity.

use vstd::prelude::*;
use vstd::std_specs::cmp::PartialEqSpecImpl;
use vstd::string::StringExecFns;

verus! {

/// The character of a decimal digit.
pub open spec fn digit_char(digit: nat) -> char
    recommends
        digit < 10,
{
    if digit == 0 {
        '0'
    } else if digit == 1 {
        '1'
    } else if digit == 2 {
        '2'
    } else if digit == 3 {
        '3'
    } else if digit == 4 {
        '4'
    } else if digit == 5 {
        '5'
    } else if digit == 6 {
        '6'
    } else if digit == 7 {
        '7'
    } else if digit == 8 {
        '8'
    } else {
        '9'
    }
}

/// The decimal numeral of `n`, without leading zeros.
pub open spec fn decimal(n: nat) -> Seq<char>
    decreases n,
{
    if n < 10 {
        seq![digit_char(n)]
    } else {
        decimal(n / 10).push(digit_char(n % 10))
    }
}

/// The number of the render node that an identifier selects: its low eight
/// bits.
pub open spec fn node_number(id: u64) -> nat {
    (id % 256) as nat
}

/// The path of the render node that `id` selects.
pub open spec fn render_node_path(id: u64) -> Seq<char> {
    "/dev/dri/renderD"@ + decimal(node_number(id))
}

/// How to open a render node: which path, and in which mode.
#[derive(Debug)]
pub struct DeviceOpen {
    pub path: String,
    pub read_write: bool,
    pub close_on_exec: bool,
}

/// A handle to one open render node.
///
/// The handle stands for the open descriptor itself. Whoever opened the
/// device names that descriptor by a token of its choice, one token per open
/// and the same token for every copy of the handle; two handles are equal if
/// and only if they carry the same token. The descriptor's number is no such
/// token: the system gives a number out again once it is closed.
#[derive(Clone, Copy, Debug)]
pub struct DrmRenderNode {
    node: u8,
    token: u64,
}

fn digit_str(digit: u8) -> (numeral: &'static str)
    requires
        digit < 10,
    ensures
        numeral@ == seq![digit_char(digit as nat)],
{
    proof {
        reveal_strlit("0");
        reveal_strlit("1");
        reveal_strlit("2");
        reveal_strlit("3");
        reveal_strlit("4");
        reveal_strlit("5");
        reveal_strlit("6");
        reveal_strlit("7");
        reveal_strlit("8");
        reveal_strlit("9");
    }
    let numeral = match digit {
        0 => "0",
        1 => "1",
        2 => "2",
        3 => "3",
        4 => "4",
        5 => "5",
        6 => "6",
        7 => "7",
        8 => "8",
        _ => "9",
    };
    assert(numeral@ =~= seq![digit_char(digit as nat)]);
    numeral
}

impl DrmRenderNode {
    /// The token that names the open descriptor.
    pub closed spec fn identity(&self) -> u64 {
        self.token
    }

    /// The number of the node that was opened.
    pub closed spec fn number(&self) -> nat {
        self.node as nat
    }

    /// The path of the render node that `id` selects: `/dev/dri/renderD`
    /// and the decimal numeral of the low eight bits of `id`.
    pub fn device_path(id: u64) -> (path: String)
        ensures
            path@ == render_node_path(id),
    {
        let n: u8 = (id % 256) as u8;
        let mut path = String::from_str("/dev/dri/renderD");
        if n >= 100 {
            path.append(digit_str(n / 100));
            path.append(digit_str((n / 10) % 10));
            assert(decimal(n as nat) == decimal((n / 100) as nat).push(
                digit_char(((n / 10) % 10) as nat),
            ).push(digit_char((n % 10) as nat))) by {
                reveal_with_fuel(decimal, 3);
            }
        } else if n >= 10 {
            path.append(digit_str(n / 10));
            assert(decimal(n as nat) == decimal((n / 10) as nat).push(
                digit_char((n % 10) as nat),
            ));
        }
        path.append(digit_str(n % 10));
        assert(path@ =~= render_node_path(id)) by {
            reveal_with_fuel(decimal, 3);
        }
        path
    }

    /// How to open the render node that `id` selects: its path, for reading
    /// and writing, closed on exec.
    pub fn open_request(id: u64) -> (open: DeviceOpen)
        ensures
            open.path@ == render_node_path(id),
            open.read_write,
            open.close_on_exec,
    {
        DeviceOpen { path: Self::device_path(id), read_write: true, close_on_exec: true }
    }

    /// The handle to the node that `id` selects, once it is open and named
    /// by `token`.
    pub fn new(id: u64, token: u64) -> (node: DrmRenderNode)
        ensures
            node.identity() == token,
            node.number() == node_number(id),
    {
        DrmRenderNode { node: (id % 256) as u8, token }
    }

    /// The token that names the open descriptor.
    pub fn token(&self) -> (token: u64)
        ensures
            token == self.identity(),
    {
        self.token
    }

    /// The number of the node that was opened.
    pub fn node(&self) -> (node: u8)
        ensures
            node == self.number(),
    {
        self.node
    }
}

impl PartialEq for DrmRenderNode {
    fn eq(&self, other: &Self) -> (equal: bool) {
        self.token == other.token
    }
}

impl PartialEqSpecImpl for DrmRenderNode {
    open spec fn obeys_eq_spec() -> bool {
        true
    }

    open spec fn eq_spec(&self, other: &Self) -> bool {
        self.identity() == other.identity()
    }
}

} // verus!

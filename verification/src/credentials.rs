//! Credential resolution: the pure parsing half of service discovery.
//! The credentials file holds one line, `name:pid:port:password:protocol`;
//! a client process advertises the same values in its launch arguments.
//! Reading the file or the process table is the caller's business; every
//! rule about what the bytes mean lives here.

use vstd::prelude::*;
use vstd::string::StringExecFns;
use crate::strutil::{
    all_digits, dec_val, parse_u16, split_seq, split_str, starts_with, starts_with_seq,
};

verus! {

/// The discovered endpoint of one live client instance.
pub struct LCUClientInfo {
    pub port: u16,
    pub password: String,
    pub protocol: String,
}

/// The ghost image of `LCUClientInfo`: plain values only.
pub struct LCUClientInfoModel {
    pub port: u16,
    pub password: Seq<char>,
    pub protocol: Seq<char>,
}

impl View for LCUClientInfo {
    type V = LCUClientInfoModel;

    open spec fn view(&self) -> LCUClientInfoModel {
        LCUClientInfoModel { port: self.port, password: self.password@, protocol: self.protocol@ }
    }
}

/// Why discovery found no usable service. Neither case is a fault: the
/// supervisor sleeps and retries.
#[derive(Clone, Copy, PartialEq, Eq, Structural, Debug)]
pub enum DiscoveryError {
    /// The credentials line has fewer than five colon-delimited fields.
    MissingFields,
    /// The port field is not a decimal number that fits a port.
    BadPort,
}

/// A decimal string that a `u16` port can hold.
pub open spec fn valid_port_field(s: Seq<char>) -> bool {
    s.len() > 0 && all_digits(s) && dec_val(s) <= u16::MAX as int
}

/// Parses one credentials line, already stripped of surrounding
/// whitespace. The line must carry at least five colon-delimited fields;
/// the third is the port, the fourth the password, the fifth the protocol.
pub fn parse_lockfile_line(line: &str) -> (r: Result<LCUClientInfo, DiscoveryError>)
    ensures
        ({
            let parts = split_seq(line@, ':');
            match r {
                Ok(info) => parts.len() >= 5 && valid_port_field(parts[2]) && info@.port as int
                    == dec_val(parts[2]) && info@.password == parts[3] && info@.protocol
                    == parts[4],
                Err(DiscoveryError::MissingFields) => parts.len() < 5,
                Err(DiscoveryError::BadPort) => parts.len() >= 5 && !valid_port_field(parts[2]),
            }
        }),
{
    let parts = split_str(line, ':');
    if parts.len() < 5 {
        return Err(DiscoveryError::MissingFields);
    }
    proof {
        assert(parts.deep_view()[2] == parts@[2]@);
        assert(parts.deep_view()[3] == parts@[3]@);
        assert(parts.deep_view()[4] == parts@[4]@);
    }
    let port = match parse_u16(parts[2].as_str()) {
        Some(p) => p,
        None => {
            return Err(DiscoveryError::BadPort);
        },
    };
    let password = parts[3].clone();
    let protocol = parts[4].clone();
    Ok(LCUClientInfo { port, password, protocol })
}

/// The view of an optional owned string.
pub open spec fn opt_str_view(o: Option<String>) -> Option<Seq<char>> {
    match o {
        Some(s) => Some(s@),
        None => None,
    }
}

/// The field after the first `=` in an argument, if any.
pub open spec fn arg_value(arg: Seq<char>) -> Seq<char> {
    split_seq(arg, '=')[1]
}

pub open spec fn arg_has_value(arg: Seq<char>) -> bool {
    split_seq(arg, '=').len() >= 2
}

/// What one launch argument contributes to the scan: the last occurrence
/// of each flag wins, and a flag with an unusable value clears what an
/// earlier one set.
pub open spec fn league_arg_step(
    st: (Option<u16>, Option<Seq<char>>, Seq<char>),
    arg: Seq<char>,
) -> (Option<u16>, Option<Seq<char>>, Seq<char>) {
    if starts_with_seq(arg, "--app-port="@) {
        if arg_has_value(arg) && valid_port_field(arg_value(arg)) {
            (Some(dec_val(arg_value(arg)) as u16), st.1, st.2)
        } else {
            (None, st.1, st.2)
        }
    } else if starts_with_seq(arg, "--remoting-auth-token="@) {
        if arg_has_value(arg) {
            (st.0, Some(arg_value(arg)), st.2)
        } else {
            (st.0, None, st.2)
        }
    } else if starts_with_seq(arg, "--app-protocol="@) {
        if arg_has_value(arg) {
            (st.0, st.1, arg_value(arg))
        } else {
            (st.0, st.1, "https"@)
        }
    } else {
        st
    }
}

/// The scan of a whole argument list, first to last, starting from no
/// port, no token, and the default protocol.
pub open spec fn league_args_scan(args: Seq<Seq<char>>) -> (
    Option<u16>,
    Option<Seq<char>>,
    Seq<char>,
)
    decreases args.len(),
{
    if args.len() == 0 {
        (None::<u16>, None::<Seq<char>>, "https"@)
    } else {
        league_arg_step(league_args_scan(args.drop_last()), args.last())
    }
}

/// Extracts endpoint credentials from a client process's launch
/// arguments. Returns `None` unless both a usable port and an auth token
/// are present.
pub fn parse_league_args(cmd_line: &[String]) -> (r: Option<LCUClientInfo>)
    ensures
        ({
            let (port, password, protocol) = league_args_scan(cmd_line.deep_view());
            match r {
                Some(info) => port == Some(info@.port) && password == Some(info@.password)
                    && protocol == info@.protocol,
                None => port is None || password is None,
            }
        }),
{
    let mut port: Option<u16> = None;
    let mut password: Option<String> = None;
    let mut protocol: String = String::from_str("https");
    let n = cmd_line.len();
    let mut i: usize = 0;
    proof {
        assert(cmd_line.deep_view().subrange(0, 0) =~= Seq::<Seq<char>>::empty());
    }
    while i < n
        invariant
            cmd_line@.len() == n,
            i <= n,
            ({
                let st = league_args_scan(cmd_line.deep_view().subrange(0, i as int));
                &&& st.0 == port
                &&& st.1 == opt_str_view(password)
                &&& st.2 == protocol@
            }),
        decreases n - i,
    {
        let ghost prefix = cmd_line.deep_view().subrange(0, i as int);
        let ghost prefix2 = cmd_line.deep_view().subrange(0, i + 1);
        proof {
            assert(prefix2.drop_last() =~= prefix);
            assert(prefix2.last() == cmd_line.deep_view()[i as int]);
            assert(cmd_line.deep_view()[i as int] == cmd_line@[i as int]@);
        }
        let arg: &String = &cmd_line[i];
        if starts_with(arg.as_str(), "--app-port=") {
            let fields = split_str(arg.as_str(), '=');
            if fields.len() >= 2 {
                proof {
                    assert(fields.deep_view()[1] == fields@[1]@);
                }
                port = parse_u16(fields[1].as_str());
            } else {
                port = None;
            }
        } else if starts_with(arg.as_str(), "--remoting-auth-token=") {
            let fields = split_str(arg.as_str(), '=');
            if fields.len() >= 2 {
                proof {
                    assert(fields.deep_view()[1] == fields@[1]@);
                }
                password = Some(fields[1].clone());
            } else {
                password = None;
            }
        } else if starts_with(arg.as_str(), "--app-protocol=") {
            let fields = split_str(arg.as_str(), '=');
            if fields.len() >= 2 {
                proof {
                    assert(fields.deep_view()[1] == fields@[1]@);
                }
                protocol = fields[1].clone();
            } else {
                protocol = String::from_str("https");
            }
        }
        i += 1;
    }
    proof {
        assert(cmd_line.deep_view().subrange(0, n as int) =~= cmd_line.deep_view());
    }
    match (port, password) {
        (Some(p), Some(pw)) => Some(LCUClientInfo { port: p, password: pw, protocol }),
        _ => None,
    }
}

} // verus!

//! The monitored ports, and the texts derived from them: the capture filter
//! handed to the packet capture, and a short summary for people.

use crate::text::{join_numbers, joined};
use vstd::prelude::*;

verus! {

/// The monitored destination ports, in three optional groups.
///
/// `both` lists ports watched whatever the protocol, `tcp` and `udp` list
/// ports watched for one protocol only.
#[derive(Clone, Debug)]
pub struct Ports {
    pub both: Option<Vec<u64>>,
    pub tcp: Option<Vec<u64>>,
    pub udp: Option<Vec<u64>>,
}

/// The filter terms of one group: `keyword` before every port, `" or "`
/// between two terms, and one space after the last.
pub open spec fn port_group(keyword: Seq<char>, ports: Seq<u64>) -> Seq<char> {
    keyword + joined(ports, " or "@ + keyword) + " "@
}

/// `"or "` where an earlier group has to be linked to the next one.
pub open spec fn group_link(earlier: bool) -> Seq<char> {
    if earlier {
        "or "@
    } else {
        Seq::empty()
    }
}

/// The port part of the capture filter: the groups `both`, `udp`, `tcp` in
/// that order, linked by `or`, inside one pair of parentheses.
pub open spec fn port_filter_text(ports: Ports) -> Seq<char> {
    let both = match ports.both {
        Some(list) => port_group("dst port "@, list@),
        None => Seq::empty(),
    };
    let udp = match ports.udp {
        Some(list) => group_link(ports.both is Some) + port_group("udp dst port "@, list@),
        None => Seq::empty(),
    };
    let tcp = match ports.tcp {
        Some(list) => group_link(ports.both is Some || ports.udp is Some) + port_group(
            "tcp dst port "@,
            list@,
        ),
        None => Seq::empty(),
    };
    "( "@ + both + udp + tcp + ")"@
}

/// The whole capture filter: the port part, restricted to packets whose
/// destination host is `address`.
pub open spec fn capture_filter_text(ports: Ports, address: Seq<char>) -> Seq<char> {
    port_filter_text(ports) + " and dst host "@ + address
}

/// A comma-separated list of the ports of an optional group; empty where the
/// group is absent.
pub open spec fn port_list(group: Option<Vec<u64>>) -> Seq<char> {
    match group {
        Some(list) => joined(list@, ","@),
        None => Seq::empty(),
    }
}

/// `","` where `wanted`, else nothing.
pub open spec fn comma_if(wanted: bool) -> Seq<char> {
    if wanted {
        ","@
    } else {
        Seq::empty()
    }
}

/// The summary shown to people: the ports reachable over UDP after `"UDP: "`,
/// then the ports reachable over TCP after `" TCP: "`. The ports of `both`
/// close each of the two lists.
pub open spec fn port_summary_text(ports: Ports) -> Seq<char> {
    let udp_label: Seq<char> = if ports.udp is Some || ports.both is Some {
        "UDP: "@
    } else {
        Seq::empty()
    };
    let udp_list = if ports.udp is Some {
        port_list(ports.udp) + comma_if(ports.tcp is Some || ports.both is Some)
    } else {
        Seq::empty()
    };
    let tcp_label: Seq<char> = if ports.tcp is Some || ports.both is Some {
        " TCP: "@
    } else {
        Seq::empty()
    };
    let tcp_tail = if ports.both is Some {
        comma_if(ports.tcp is Some) + port_list(ports.both)
    } else {
        Seq::empty()
    };
    udp_label + udp_list + port_list(ports.both) + tcp_label + port_list(ports.tcp) + tcp_tail
}

/// Appends the filter terms of one group to `text`.
fn push_group(text: &mut String, keyword: &str, separator: &str, ports: &Vec<u64>)
    requires
        separator@ == " or "@ + keyword@,
    ensures
        final(text)@ == old(text)@ + port_group(keyword@, ports@),
{
    text.append(keyword);
    let list = join_numbers(ports, separator);
    text.append(list.as_str());
    text.append(" ");
    assert(text@ =~= old(text)@ + port_group(keyword@, ports@));
}

/// Builds the port part of the capture filter.
pub fn generate_port_str(ports: &Ports) -> (text: String)
    ensures
        text@ == port_filter_text(*ports),
{
    let mut port_string = "( ".to_owned();
    if let Some(list) = &ports.both {
        proof {
            lemma_separators();
        }
        push_group(&mut port_string, "dst port ", " or dst port ", list);
    }
    if let Some(list) = &ports.udp {
        if ports.both.is_some() {
            port_string.append("or ");
        }
        proof {
            lemma_separators();
        }
        push_group(&mut port_string, "udp dst port ", " or udp dst port ", list);
    }
    if let Some(list) = &ports.tcp {
        if ports.both.is_some() || ports.udp.is_some() {
            port_string.append("or ");
        }
        proof {
            lemma_separators();
        }
        push_group(&mut port_string, "tcp dst port ", " or tcp dst port ", list);
    }
    port_string.append(")");
    assert(port_string@ =~= port_filter_text(*ports));
    port_string
}

/// Builds the capture filter for the given ports and destination address.
pub fn capture_filter(ports: &Ports, address: &str) -> (text: String)
    ensures
        text@ == capture_filter_text(*ports, address@),
{
    let mut filter = generate_port_str(ports);
    filter.append(" and dst host ");
    filter.append(address);
    filter
}

/// Builds the port summary shown to people.
pub fn generate_pretty_port_str(ports: &Ports) -> (text: String)
    ensures
        text@ == port_summary_text(*ports),
{
    let mut port_string = String::new();
    if ports.udp.is_some() || ports.both.is_some() {
        port_string.append("UDP: ");
    }
    if let Some(list) = &ports.udp {
        let udp = join_numbers(list, ",");
        port_string.append(udp.as_str());
        if ports.tcp.is_some() || ports.both.is_some() {
            port_string.append(",");
        }
    }
    if let Some(list) = &ports.both {
        let both = join_numbers(list, ",");
        port_string.append(both.as_str());
    }
    if ports.tcp.is_some() || ports.both.is_some() {
        port_string.append(" TCP: ");
    }
    if let Some(list) = &ports.tcp {
        let tcp = join_numbers(list, ",");
        port_string.append(tcp.as_str());
    }
    if let Some(list) = &ports.both {
        if ports.tcp.is_some() {
            port_string.append(",");
        }
        let both = join_numbers(list, ",");
        port_string.append(both.as_str());
    }
    assert(port_string@ =~= port_summary_text(*ports));
    port_string
}

/// Each separator literal is `" or "` followed by its group's keyword.
proof fn lemma_separators()
    ensures
        " or dst port "@ == " or "@ + "dst port "@,
        " or udp dst port "@ == " or "@ + "udp dst port "@,
        " or tcp dst port "@ == " or "@ + "tcp dst port "@,
{
    reveal_strlit(" or ");
    reveal_strlit("dst port ");
    reveal_strlit("udp dst port ");
    reveal_strlit("tcp dst port ");
    reveal_strlit(" or dst port ");
    reveal_strlit(" or udp dst port ");
    reveal_strlit(" or tcp dst port ");
    assert(" or dst port "@ =~= " or "@ + "dst port "@);
    assert(" or udp dst port "@ =~= " or "@ + "udp dst port "@);
    assert(" or tcp dst port "@ =~= " or "@ + "tcp dst port "@);
}

} // verus!

//! Voucher denominations: `port/channel/base`, the name under which a token
//! sent from here is known on the other side of a channel.
use crate::error::{ContractError, ContractErrorView};
use crate::host::{IbcEndpoint, IbcEndpointView};
use crate::text::{find_char, lemma_position_of, position_of};
use vstd::prelude::*;
use vstd::string::*;

verus! {

broadcast use vstd::string::group_string_axioms;

/// The three parts of a voucher denomination: what precedes the first slash,
/// what stands between the first and the second, and everything after the
/// second. `None` when there are fewer than two slashes.
pub open spec fn voucher_parts(denom: Seq<char>) -> Option<(Seq<char>, Seq<char>, Seq<char>)> {
    let i = position_of(denom, '/', 0);
    let j = position_of(denom, '/', i + 1);
    if j < denom.len() {
        Some(
            (
                denom.subrange(0, i),
                denom.subrange(i + 1, j),
                denom.subrange(j + 1, denom.len() as int),
            ),
        )
    } else {
        None
    }
}

/// The local denomination that a voucher stands for when it arrives from
/// `remote`, or the reason why it is not one of ours.
pub open spec fn parse_voucher(denom: Seq<char>, remote: IbcEndpointView) -> Result<
    Seq<char>,
    ContractErrorView,
> {
    match voucher_parts(denom) {
        None => Err(ContractErrorView::NoForeignTokens),
        Some((port, channel, base)) => {
            if port != remote.port_id {
                Err(ContractErrorView::FromOtherPort { port })
            } else if channel != remote.channel_id {
                Err(ContractErrorView::FromOtherChannel { channel })
            } else {
                Ok(base)
            }
        },
    }
}

/// The voucher denomination of `base` sent over the channel end `port`,
/// `channel`.
pub open spec fn voucher_of(port: Seq<char>, channel: Seq<char>, base: Seq<char>) -> Seq<char> {
    port + seq!['/'] + channel + seq!['/'] + base
}

/// A voucher put together from a port and a channel without slashes comes
/// apart into the same three parts.
pub proof fn lemma_voucher_parts_of_voucher(port: Seq<char>, channel: Seq<char>, base: Seq<char>)
    requires
        !port.contains('/'),
        !channel.contains('/'),
    ensures
        voucher_parts(voucher_of(port, channel, base)) == Some((port, channel, base)),
{
    let v = voucher_of(port, channel, base);
    let i = port.len() as int;
    let j = i + 1 + channel.len();
    assert(v[i] == '/');
    assert(v[j] == '/');
    lemma_position_of(v, '/', 0);
    assert(position_of(v, '/', 0) == i) by {
        let p = position_of(v, '/', 0);
        if p < i {
            assert(v[p] == port[p]);
            assert(port.contains('/'));
        }
    }
    lemma_position_of(v, '/', i + 1);
    assert(position_of(v, '/', i + 1) == j) by {
        let p = position_of(v, '/', i + 1);
        if p < j {
            assert(v[p] == channel[p - i - 1]);
            assert(channel.contains('/'));
        }
    }
    assert(v.subrange(0, i) =~= port);
    assert(v.subrange(i + 1, j) =~= channel);
    assert(v.subrange(j + 1, v.len() as int) =~= base);
}

/// Whatever comes apart into three parts is the voucher of those parts, and
/// neither its port nor its channel holds a slash.
pub proof fn lemma_voucher_of_voucher_parts(denom: Seq<char>)
    requires
        voucher_parts(denom) is Some,
    ensures
        ({
            let (port, channel, base) = voucher_parts(denom)->Some_0;
            &&& denom == voucher_of(port, channel, base)
            &&& !port.contains('/')
            &&& !channel.contains('/')
        }),
{
    let i = position_of(denom, '/', 0);
    lemma_position_of(denom, '/', 0);
    let j = position_of(denom, '/', i + 1);
    if i < denom.len() {
        lemma_position_of(denom, '/', i + 1);
    }
    let (port, channel, base) = voucher_parts(denom)->Some_0;
    assert(denom =~= voucher_of(port, channel, base));
}

/// Returns the local denomination if `voucher_denom` is a voucher that came
/// from `remote_endpoint`, and says what is wrong with it otherwise.
pub fn parse_voucher_denom<'a>(voucher_denom: &'a str, remote_endpoint: &IbcEndpoint) -> (res:
    Result<&'a str, ContractError>)
    ensures
        match parse_voucher(voucher_denom@, remote_endpoint@) {
            Ok(base) => res matches Ok(d) && d@ == base,
            Err(e) => res matches Err(x) && x@ == e,
        },
{
    let n = voucher_denom.unicode_len();
    let i = find_char(voucher_denom, '/', 0);
    proof {
        lemma_position_of(voucher_denom@, '/', 0);
    }
    if i >= n {
        return Err(ContractError::NoForeignTokens);
    }
    let j = find_char(voucher_denom, '/', i + 1);
    proof {
        lemma_position_of(voucher_denom@, '/', i + 1);
    }
    if j >= n {
        return Err(ContractError::NoForeignTokens);
    }
    let port = voucher_denom.substring_char(0, i).to_owned();
    if port != remote_endpoint.port_id {
        return Err(ContractError::FromOtherPort { port });
    }
    let channel = voucher_denom.substring_char(i + 1, j).to_owned();
    if channel != remote_endpoint.channel_id {
        return Err(ContractError::FromOtherChannel { channel });
    }
    Ok(voucher_denom.substring_char(j + 1, n))
}

} // verus!

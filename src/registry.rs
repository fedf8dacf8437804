//! The fixed method tables: which methods exist, which are public, and which
//! run on the background worker pool.

use vstd::prelude::*;

verus! {

/// Methods that need no credential.
pub open spec fn public_methods() -> Seq<Seq<char>> {
    seq![
        "fundvalue"@, "getprice"@, "getpeers"@, "getcoins"@, "help"@, "metrics"@,
        "notify"@, "orderbook"@, "passphrase"@, "pricearray"@, "psock"@, "statsdisp"@,
        "stats_swap_status"@, "tradesarray"@, "ticker"@, "version"@,
    ]
}

/// A request is public when its method is in the public set, or when its
/// method is absent or has no handler: such a request meets the not-found
/// error, never a credential one.
pub open spec fn is_public(method: Option<Seq<char>>) -> bool {
    match method {
        Option::None => true,
        Option::Some(m) => public_methods().contains(m) || !registered_methods().contains(m),
    }
}

/// Every method that the dispatcher routes to a handler.
pub open spec fn registered_methods() -> Seq<Seq<char>> {
    seq![
        "active_swaps"@, "all_swaps_uuids_by_filter"@, "ban_pubkey"@, "best_orders"@,
        "buy"@, "cancel_all_orders"@, "cancel_order"@, "coins_needed_for_kick_start"@,
        "convertaddress"@, "convert_utxo_address"@, "disable_coin"@, "electrum"@, "enable"@,
        "get_enabled_coins"@, "get_gossip_mesh"@, "get_gossip_peer_topics"@,
        "get_gossip_topic_peers"@, "get_my_peer_id"@, "get_peers_info"@, "get_relay_mesh"@,
        "get_trade_fee"@, "help"@, "import_swaps"@, "kmd_rewards_info"@,
        "list_banned_pubkeys"@, "max_taker_vol"@, "metrics"@, "min_trading_vol"@,
        "my_balance"@, "my_orders"@, "my_recent_swaps"@, "my_swap_status"@,
        "my_tx_history"@, "order_status"@, "orderbook"@, "orderbook_depth"@, "sim_panic"@,
        "recover_funds_of_swap"@, "sell"@, "show_priv_key"@, "send_raw_transaction"@,
        "set_required_confirmations"@, "set_requires_notarization"@, "setprice"@,
        "stats_swap_status"@, "stop"@, "trade_preimage"@, "unban_pubkeys"@,
        "validateaddress"@, "version"@, "withdraw"@,
    ]
}

/// Methods whose handlers compute locally for long enough to be moved off the
/// request-handling tasks.
pub open spec fn offloaded_methods() -> Seq<Seq<char>> {
    seq!["import_swaps"@, "recover_funds_of_swap"@]
}

/// The text of an optional string.
pub open spec fn opt_text(o: Option<String>) -> Option<Seq<char>> {
    match o {
        Option::None => Option::None,
        Option::Some(s) => Option::Some(s@),
    }
}

pub open spec fn views_of(names: Seq<&'static str>) -> Seq<Seq<char>> {
    names.map_values(|s: &'static str| s@)
}

fn public_method_list() -> (r: Vec<&'static str>)
    ensures
        views_of(r@) == public_methods(),
{
    let r = vec![
        "fundvalue", "getprice", "getpeers", "getcoins", "help", "metrics",
        "notify", "orderbook", "passphrase", "pricearray", "psock", "statsdisp",
        "stats_swap_status", "tradesarray", "ticker", "version",
    ];
    assert(views_of(r@) =~= public_methods());
    r
}

/// The names of all registered methods, in table order.
pub fn registered_method_names() -> (r: Vec<&'static str>)
    ensures
        views_of(r@) == registered_methods(),
{
    let r = vec![
        "active_swaps", "all_swaps_uuids_by_filter", "ban_pubkey", "best_orders",
        "buy", "cancel_all_orders", "cancel_order", "coins_needed_for_kick_start",
        "convertaddress", "convert_utxo_address", "disable_coin", "electrum", "enable",
        "get_enabled_coins", "get_gossip_mesh", "get_gossip_peer_topics",
        "get_gossip_topic_peers", "get_my_peer_id", "get_peers_info", "get_relay_mesh",
        "get_trade_fee", "help", "import_swaps", "kmd_rewards_info",
        "list_banned_pubkeys", "max_taker_vol", "metrics", "min_trading_vol",
        "my_balance", "my_orders", "my_recent_swaps", "my_swap_status",
        "my_tx_history", "order_status", "orderbook", "orderbook_depth", "sim_panic",
        "recover_funds_of_swap", "sell", "show_priv_key", "send_raw_transaction",
        "set_required_confirmations", "set_requires_notarization", "setprice",
        "stats_swap_status", "stop", "trade_preimage", "unban_pubkeys",
        "validateaddress", "version", "withdraw",
    ];
    assert(views_of(r@) =~= registered_methods());
    r
}

fn offloaded_method_list() -> (r: Vec<&'static str>)
    ensures
        views_of(r@) == offloaded_methods(),
{
    let r = vec!["import_swaps", "recover_funds_of_swap"];
    assert(views_of(r@) =~= offloaded_methods());
    r
}

/// Exact, case-sensitive search of `name` in `list`.
fn list_contains(list: &Vec<&'static str>, name: &String) -> (r: bool)
    ensures
        r == views_of(list@).contains(name@),
{
    let mut i: usize = 0;
    while i < list.len()
        invariant
            i <= list@.len(),
            forall|j: int| 0 <= j < i ==> list@[j]@ != name@,
        decreases list@.len() - i,
    {
        let candidate = list[i].to_owned();
        if candidate == *name {
            assert(views_of(list@)[i as int] == name@);
            return true;
        }
        i = i + 1;
    }
    proof {
        if views_of(list@).contains(name@) {
            let k = choose|k: int| 0 <= k < views_of(list@).len() && views_of(list@)[k] == name@;
            assert(list@[k]@ == name@);
        }
    }
    false
}

/// Whether a request with this method skips the credential check.
pub fn is_public_method(method: &Option<String>) -> (r: bool)
    ensures
        r == is_public(opt_text(*method)),
{
    match method {
        Option::None => true,
        Option::Some(m) => list_contains(&public_method_list(), m) || !is_registered_method(m),
    }
}

/// Whether the dispatcher has a handler for this method name.
pub fn is_registered_method(name: &String) -> (r: bool)
    ensures
        r == registered_methods().contains(name@),
{
    list_contains(&registered_method_names(), name)
}

/// Whether the handler of this method runs on the background worker pool.
pub fn is_offloaded_method(name: &String) -> (r: bool)
    ensures
        r == offloaded_methods().contains(name@),
{
    list_contains(&offloaded_method_list(), name)
}

} // verus!

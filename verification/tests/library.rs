use realioverse_api::chains::algorand::{next_page_url_for, ALGORAND_BALANCES_URL};
use realioverse_api::chains::stellar::stellar_figures;
use realioverse_api::combined::total_of_chains;
use realioverse_api::request::request_headers;
use realioverse_api::{
    AlgoSupply, Algoholder, AlgorandHolderScan, AlgorandStep, Asset, Balance, CombinedData, Params,
    TomlInfo, Trustlines,
};

fn balance(address: &str, amount: i64) -> Balance {
    Balance {
        address: address.to_string(),
        amount,
        deleted: false,
        is_frozen: false,
        opted_in_at_round: 7,
    }
}

fn page(n: usize, next: Option<&str>) -> Algoholder {
    Algoholder {
        balances: (0..n).map(|i| balance(&format!("ADDR{}", i), i as i64 + 1)).collect(),
        current_round: 100,
        next_token: next.map(|t| t.to_string()),
    }
}

#[test]
fn total_adds_the_three_chains() {
    let total = total_of_chains((10, 1_000), (20, 2_000), (30, 3_000));
    assert_eq!(total, CombinedData { holders: 60, supply: 6_000 });
}

#[test]
fn total_with_negative_and_zero_figures() {
    let total = total_of_chains((0, 0), (-5, 7), (5, -7));
    assert_eq!(total, CombinedData { holders: 0, supply: 0 });
}

#[test]
fn total_reaches_the_edge_of_i64() {
    let total = total_of_chains((i64::MAX - 2, 1), (1, 1), (1, i64::MAX - 2));
    assert_eq!(total.holders, i64::MAX);
    assert_eq!(total.supply, i64::MAX);
}

#[test]
fn add_is_field_wise() {
    let a = CombinedData { holders: 3, supply: 40 };
    let b = CombinedData { holders: 4, supply: 2 };
    assert_eq!(a.add(b), CombinedData { holders: 7, supply: 42 });
}

#[test]
fn add_does_not_depend_on_order() {
    let a = CombinedData { holders: 11, supply: -4 };
    let b = CombinedData { holders: 9, supply: 100 };
    let c = CombinedData { holders: -3, supply: 8 };
    assert_eq!(a.add(b), b.add(a));
    assert_eq!(a.add(b).add(c), a.add(b.add(c)));
    assert_eq!(a.add(CombinedData { holders: 0, supply: 0 }), a);
    assert_eq!(
        total_of_chains((11, -4), (9, 100), (-3, 8)),
        total_of_chains((-3, 8), (11, -4), (9, 100))
    );
}

#[test]
fn from_figures_keeps_the_pair() {
    assert_eq!(
        CombinedData::from_figures((5, 6)),
        CombinedData { holders: 5, supply: 6 }
    );
}

#[test]
fn headers_with_api_key() {
    let headers = request_headers(Some("secret"));
    let expected: Vec<(String, String)> = vec![
        ("x-api-key".to_string(), "secret".to_string()),
        ("content-type".to_string(), "application/json".to_string()),
        ("accept".to_string(), "application/json".to_string()),
        ("pragma".to_string(), "public".to_string()),
    ];
    assert_eq!(headers, expected);
}

#[test]
fn headers_without_api_key() {
    let headers = request_headers(None);
    let expected: Vec<(String, String)> = vec![
        ("content-type".to_string(), "application/json".to_string()),
        ("accept".to_string(), "application/json".to_string()),
        ("pragma".to_string(), "public".to_string()),
    ];
    assert_eq!(headers, expected);
}

#[test]
fn next_page_url_appends_the_token() {
    assert_eq!(
        next_page_url_for("abc123"),
        "http://mainnet-idx.algonode.network/v2/assets/2751733/balances?currency-greater-than=0&next=abc123"
    );
}

#[test]
fn scan_starts_at_the_listing() {
    let (scan, url) = AlgorandHolderScan::start();
    assert_eq!(url, ALGORAND_BALANCES_URL);
    assert_eq!(scan.balances_seen(), 0);
    assert_eq!(scan.holder_count(), 0);
}

#[test]
fn scan_walks_pages_and_counts_every_balance() {
    let (mut scan, _) = AlgorandHolderScan::start();
    match scan.record_page(page(3, Some("tok1"))) {
        AlgorandStep::Fetch(url) => assert_eq!(url, format!("{}&next=tok1", ALGORAND_BALANCES_URL)),
        AlgorandStep::Finished => panic!("a page with a token has a successor"),
    }
    assert_eq!(scan.balances_seen(), 3);
    // The follow-up URL is built on the listing's URL, not on the previous one.
    match scan.record_page(page(2, Some("tok2"))) {
        AlgorandStep::Fetch(url) => assert_eq!(url, format!("{}&next=tok2", ALGORAND_BALANCES_URL)),
        AlgorandStep::Finished => panic!("a page with a token has a successor"),
    }
    match scan.record_page(page(4, None)) {
        AlgorandStep::Finished => {}
        AlgorandStep::Fetch(url) => panic!("unexpected follow-up {}", url),
    }
    assert_eq!(scan.balances_seen(), 9);
    assert_eq!(scan.holder_count(), 9);
}

#[test]
fn scan_counts_empty_pages_as_nothing() {
    let (mut scan, _) = AlgorandHolderScan::start();
    assert!(matches!(scan.record_page(page(0, Some("x"))), AlgorandStep::Fetch(_)));
    assert!(matches!(scan.record_page(page(0, None)), AlgorandStep::Finished));
    assert_eq!(scan.holder_count(), 0);
}

#[test]
fn count_is_additive_over_runs_of_pages() {
    let (mut one, _) = AlgorandHolderScan::start();
    one.record_page(page(5, Some("a")));
    one.record_page(page(6, None));
    let (mut two, _) = AlgorandHolderScan::start();
    two.record_page(page(5, Some("a")));
    let (mut three, _) = AlgorandHolderScan::start();
    three.record_page(page(6, None));
    assert_eq!(one.holder_count(), two.holder_count() + three.holder_count());
}

fn params(total: i64) -> Params {
    Params {
        clawback: "C".to_string(),
        creator: "CR".to_string(),
        decimals: 6,
        default_frozen: false,
        freeze: "F".to_string(),
        manager: "M".to_string(),
        name: "Realio Network".to_string(),
        name_b64: "UmVhbGlv".to_string(),
        reserve: "R".to_string(),
        total,
        unit_name: "RIO".to_string(),
        unit_name_b64: "UklP".to_string(),
        url: "https://realio.network".to_string(),
        url_b64: "aHR0cHM=".to_string(),
    }
}

#[test]
fn algorand_supply_is_the_asset_total() {
    let supply = AlgoSupply {
        asset: Asset {
            created_at_round: 1,
            deleted: false,
            index: 2751733,
            params: params(75_000_000_000_000),
        },
        current_round: 99,
    };
    assert_eq!(supply.total_supply(), 75_000_000_000_000);
}

#[test]
fn stellar_holders_are_the_funded_trustlines() {
    let trustlines = Trustlines { total: 900, authorized: 850, funded: 700 };
    assert_eq!(stellar_figures(&trustlines, 123_456), (700, 123_456));
    let _info = TomlInfo {
        org_name: "Realio".to_string(),
        org_logo: "logo".to_string(),
        name: "RIO".to_string(),
        image: "img".to_string(),
        decimals: 7,
    };
}

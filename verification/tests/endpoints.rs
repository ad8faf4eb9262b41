use horizon_client::endpoint::{AccountDetails, AllAssets, EndPoint, Method, Order};
use horizon_client::error::Error;

#[test]
fn order_to_param_is_canonical() {
    assert_eq!(Order::Asc.to_param().as_str(), "asc");
    assert_eq!(Order::Desc.to_param().as_str(), "desc");
}

#[test]
fn account_details_builds_get_request() {
    let query = AccountDetails::new("GABC".to_string());
    let request = query.into_request("https://horizon.example.org").unwrap();
    assert_eq!(request.method, Method::Get);
    assert_eq!(
        request.url.as_str(),
        "https://horizon.example.org/accounts/GABC"
    );
    assert_eq!(request.body, ());
}

#[test]
fn account_details_strips_trailing_slash() {
    let query = AccountDetails::new("GABC".to_string());
    let request = query.into_request("https://horizon.example.org/").unwrap();
    assert_eq!(
        request.url.as_str(),
        "https://horizon.example.org/accounts/GABC"
    );
}

#[test]
fn account_details_rejects_bad_host() {
    let query = AccountDetails::new("GABC".to_string());
    assert_eq!(
        query.into_request("ftp://example.org").unwrap_err(),
        Error::InvalidHost
    );
    let query = AccountDetails::new("GABC".to_string());
    assert_eq!(query.into_request("https://").unwrap_err(), Error::InvalidHost);
    let query = AccountDetails::new("GABC".to_string());
    assert_eq!(
        query.into_request("https://bad host").unwrap_err(),
        Error::InvalidHost
    );
}

#[test]
fn account_details_rejects_bad_path_parameter() {
    let query = AccountDetails::new("GA/BC".to_string());
    assert_eq!(
        query.into_request("https://horizon.example.org").unwrap_err(),
        Error::InvalidPathParameter
    );
    let query = AccountDetails::new("".to_string());
    assert_eq!(
        query.into_request("https://horizon.example.org").unwrap_err(),
        Error::InvalidPathParameter
    );
}

#[test]
fn descending_listing_url_encodes_order() {
    let mut query = AllAssets::new();
    query.order = Some(Order::Desc);
    let request = query.into_request("https://horizon.example.org").unwrap();
    assert_eq!(request.method, Method::Get);
    assert!(request.url.contains("order=desc"));
    assert_eq!(
        request.url.as_str(),
        "https://horizon.example.org/assets?order=desc"
    );
}

#[test]
fn listing_encodes_parameters_in_canonical_order() {
    let mut query = AllAssets::new();
    query.asset_code = Some("USD".to_string());
    query.cursor = Some("now".to_string());
    query.order = Some(Order::Asc);
    let request = query.into_request("http://horizon.example.org").unwrap();
    assert_eq!(
        request.url.as_str(),
        "http://horizon.example.org/assets?asset_code=USD&cursor=now&order=asc"
    );
}

#[test]
fn listing_without_parameters_has_no_query_string() {
    let query = AllAssets::new();
    let request = query.into_request("https://horizon.example.org").unwrap();
    assert_eq!(request.url.as_str(), "https://horizon.example.org/assets");
}

#[test]
fn listing_rejects_bad_parameter() {
    let mut query = AllAssets::new();
    query.asset_issuer = Some("G&1".to_string());
    assert_eq!(
        query.into_request("https://horizon.example.org").unwrap_err(),
        Error::InvalidPathParameter
    );
}

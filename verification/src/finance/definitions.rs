//! The finance tools advertised to the model.

use vstd::prelude::*;

use crate::json::make::{no_items, object, string, with_item, with_member};
use crate::json::{json_views, Json, JsonView};
use crate::schema::{
    describe, name_list1, names1, no_params, nothing, param, schema_carries_name, schema_name, tool,
    tool_schema,
};

verus! {

/// What is advertised of `exchange_rates`.
pub open spec fn exchange_rates_schema() -> JsonView {
    tool_schema(
        "exchange_rates"@,
        "Get current exchange rates for a base currency. Returns conversion rates against other currencies."@,
        no_params()
            .push(("base"@, param("string"@, "Base currency code (e.g. \"USD\", \"EUR\", \"GBP\")"@)))
            .push(("targets"@, JsonView::Object(no_params().push(("type"@, JsonView::Text("array"@))).push(("items"@, JsonView::Object(no_params().push(("type"@, JsonView::Text("string"@)))))).push(("description"@, JsonView::Text("Optional list of target currency codes (e.g. [\"EUR\", \"GBP\"]). If omitted, returns top 10 rates."@)))))),
        Some(names1("base"@)),
    )
}

/// What is advertised of `crypto_price`.
pub open spec fn crypto_price_schema() -> JsonView {
    tool_schema(
        "crypto_price"@,
        "Get current price and market data for a cryptocurrency. Use the CoinGecko coin ID (e.g. \"bitcoin\", \"ethereum\", \"solana\")."@,
        no_params()
            .push(("coin_id"@, param("string"@, "CoinGecko coin ID (e.g. \"bitcoin\", \"ethereum\", \"cardano\")"@))),
        Some(names1("coin_id"@)),
    )
}

/// What is advertised of `crypto_search`.
pub open spec fn crypto_search_schema() -> JsonView {
    tool_schema(
        "crypto_search"@,
        "Search for a cryptocurrency by name or symbol. Useful when you don't know the exact CoinGecko ID for a coin."@,
        no_params()
            .push(("query"@, param("string"@, "Search query (name or symbol, e.g. \"bitcoin\" or \"BTC\")"@))),
        Some(names1("query"@)),
    )
}

/// What is advertised of `crypto_market`.
pub open spec fn crypto_market_schema() -> JsonView {
    tool_schema(
        "crypto_market"@,
        "Get top cryptocurrencies ranked by market cap. Returns prices, 24h changes, and market caps."@,
        no_params()
            .push(("limit"@, JsonView::Object(no_params().push(("type"@, JsonView::Text("integer"@))).push(("description"@, JsonView::Text("Number of results (5-20)"@))).push(("default"@, JsonView::Natural(10)))))),
        None,
    )
}

/// The tools advertised to the model.
pub open spec fn definitions_view() -> Seq<JsonView> {
    Seq::empty()
        .push(exchange_rates_schema())
        .push(crypto_price_schema())
        .push(crypto_search_schema())
        .push(crypto_market_schema())
}

fn exchange_rates_tool() -> (r: Json)
    ensures
        r@ == exchange_rates_schema(),
{
    let params = nothing();
    let params = with_member(params, "base", describe("string", "Base currency code (e.g. \"USD\", \"EUR\", \"GBP\")"));
    let params = with_member(params, "targets", object(with_member(with_member(with_member(nothing(), "type", string("array")), "items", object(with_member(nothing(), "type", string("string")))), "description", string("Optional list of target currency codes (e.g. [\"EUR\", \"GBP\"]). If omitted, returns top 10 rates."))));
    tool(
        "exchange_rates",
        "Get current exchange rates for a base currency. Returns conversion rates against other currencies.",
        params,
        Some(name_list1("base")),
    )
}

fn crypto_price_tool() -> (r: Json)
    ensures
        r@ == crypto_price_schema(),
{
    let params = nothing();
    let params = with_member(params, "coin_id", describe("string", "CoinGecko coin ID (e.g. \"bitcoin\", \"ethereum\", \"cardano\")"));
    tool(
        "crypto_price",
        "Get current price and market data for a cryptocurrency. Use the CoinGecko coin ID (e.g. \"bitcoin\", \"ethereum\", \"solana\").",
        params,
        Some(name_list1("coin_id")),
    )
}

fn crypto_search_tool() -> (r: Json)
    ensures
        r@ == crypto_search_schema(),
{
    let params = nothing();
    let params = with_member(params, "query", describe("string", "Search query (name or symbol, e.g. \"bitcoin\" or \"BTC\")"));
    tool(
        "crypto_search",
        "Search for a cryptocurrency by name or symbol. Useful when you don't know the exact CoinGecko ID for a coin.",
        params,
        Some(name_list1("query")),
    )
}

fn crypto_market_tool() -> (r: Json)
    ensures
        r@ == crypto_market_schema(),
{
    let params = nothing();
    let params = with_member(params, "limit", object(with_member(with_member(with_member(nothing(), "type", string("integer")), "description", string("Number of results (5-20)")), "default", Json::Natural(10))));
    tool(
        "crypto_market",
        "Get top cryptocurrencies ranked by market cap. Returns prices, 24h changes, and market caps.",
        params,
        None,
    )
}

/// The tools advertised to the model.
pub fn definitions() -> (r: Vec<Json>)
    ensures
        json_views(r@) == definitions_view(),
{
    let tools = no_items();
    let tools = with_item(tools, exchange_rates_tool());
    let tools = with_item(tools, crypto_price_tool());
    let tools = with_item(tools, crypto_search_tool());
    let tools = with_item(tools, crypto_market_tool());
    tools
}

/// Each tool is advertised under its own name.
pub proof fn definitions_are_named()
    ensures
        definitions_view().len() == 4,
        schema_name(definitions_view()[0]) == Some("exchange_rates"@),
        schema_name(definitions_view()[1]) == Some("crypto_price"@),
        schema_name(definitions_view()[2]) == Some("crypto_search"@),
        schema_name(definitions_view()[3]) == Some("crypto_market"@),
{
    broadcast use schema_carries_name;

    let all = definitions_view();
    assert(all[0] == exchange_rates_schema());
    assert(all[1] == crypto_price_schema());
    assert(all[2] == crypto_search_schema());
    assert(all[3] == crypto_market_schema());
}

} // verus!

//! The finance tools: which address a call reads, which numbers of the answer are shown and how,
//! and what is reported.

use vstd::prelude::*;

use super::definitions::{definitions_are_named, definitions_view};
use crate::http::{
    ask, asked, body_json, get, json_body, need, needed, reply_views, request_view, show, shown,
    Expect, Reply, ReplyView, Request, RequestView,
};
use crate::json::notation::{compact, notation};
use crate::json::serde::{json_of_text, parse};
use crate::json::{json_views, parsed_view, Json, JsonView};
use crate::schema::{advertises, schema_name};
use crate::text::case::{lowercase, lower, upper, uppercase};
use crate::text::url::{urlencode, urlencoded};
use crate::text::{
    decimal, decimal_text, is_text, join, join_texts, opt_view, outcome, prefixed, same, text,
    views,
};

pub use super::definitions::definitions;

verus! {

/// The finance tools.
#[derive(Debug, Clone, Copy, PartialEq, Eq, Structural)]
pub enum Tool {
    ExchangeRates,
    CryptoPrice,
    CryptoSearch,
    CryptoMarket,
}

/// The tool that is called by `name`.
pub open spec fn tool_of(name: Seq<char>) -> Option<Tool> {
    if name == "exchange_rates"@ {
        Some(Tool::ExchangeRates)
    } else if name == "crypto_price"@ {
        Some(Tool::CryptoPrice)
    } else if name == "crypto_search"@ {
        Some(Tool::CryptoSearch)
    } else if name == "crypto_market"@ {
        Some(Tool::CryptoMarket)
    } else {
        None
    }
}

/// The tool that is called by `name`.
pub fn tool_named(name: &str) -> (r: Option<Tool>)
    ensures
        r == tool_of(name@),
{
    if same(name, "exchange_rates") {
        Some(Tool::ExchangeRates)
    } else if same(name, "crypto_price") {
        Some(Tool::CryptoPrice)
    } else if same(name, "crypto_search") {
        Some(Tool::CryptoSearch)
    } else if same(name, "crypto_market") {
        Some(Tool::CryptoMarket)
    } else {
        None
    }
}

// ─── Figures ────────────────────────────────────────────────────────────────

/// How a number is to be shown.
#[derive(Debug, Clone, Copy, PartialEq, Eq, Structural)]
pub enum Format {
    /// With two places from one on, with four from a hundredth on, else with eight.
    Price,
    /// With eight places.
    Bitcoin,
    /// With two places, in thousands, millions, billions or trillions.
    Large,
    /// With its sign, two places and a percent sign.
    Percent,
}

/// A number to be shown.
#[derive(Debug)]
pub struct Figure {
    pub format: Format,
    /// The number, in decimal notation.
    pub number: String,
}

/// A number to be shown.
#[verifier::ext_equal]
pub struct FigureView {
    pub format: Format,
    pub number: Seq<char>,
}

impl View for Figure {
    type V = FigureView;

    open spec fn view(&self) -> FigureView {
        FigureView { format: self.format, number: self.number@ }
    }
}

/// The views of numbers to be shown, where there are any.
pub open spec fn figure_views(figures: Seq<Option<Figure>>) -> Seq<Option<FigureView>> {
    figures.map_values(
        |figure: Option<Figure>|
            match figure {
                Some(f) => Some(f@),
                None => None,
            },
    )
}

/// The views of numbers as they are shown, where there are any.
pub open spec fn shown_views(figures: Seq<Option<String>>) -> Seq<Option<Seq<char>>> {
    figures.map_values(|figure: Option<String>| opt_view(figure))
}

/// A number to be shown, where the value is one.
pub open spec fn figure_of(format: Format, value: JsonView) -> Option<FigureView> {
    match value {
        JsonView::Natural(n) => Some(FigureView { format, number: decimal(n as nat) }),
        JsonView::Decimal(s) => Some(FigureView { format, number: s }),
        _ => None,
    }
}

/// How the number at position `i` is shown.
pub open spec fn figure_at(figures: Seq<Option<Seq<char>>>, i: int) -> Seq<char> {
    if 0 <= i < figures.len() {
        match figures[i] {
            Some(s) => s,
            None => "N/A"@,
        }
    } else {
        "N/A"@
    }
}

/// A number to be shown, where the value is one.
fn figure(format: Format, value: &Json) -> (r: Option<Figure>)
    ensures
        match r {
            Some(f) => figure_of(format, value@) == Some(f@),
            None => figure_of(format, value@) is None,
        },
{
    match value {
        Json::Natural(n) => Some(Figure { format, number: decimal_text(*n) }),
        Json::Decimal(s) => Some(Figure { format, number: text(s.as_str()) }),
        _ => None,
    }
}

/// How the number at position `i` is shown.
fn shown_figure(figures: &Vec<Option<String>>, i: usize) -> (r: String)
    ensures
        r@ == figure_at(shown_views(figures@), i as int),
{
    if i < figures.len() {
        assert(shown_views(figures@)[i as int] == opt_view(figures@[i as int]));
        match &figures[i] {
            Some(s) => text(s.as_str()),
            None => text("N/A"),
        }
    } else {
        text("N/A")
    }
}

/// One number more.
fn with_figure(figures: Vec<Option<Figure>>, format: Format, value: &Json) -> (r: Vec<
    Option<Figure>,
>)
    ensures
        figure_views(r@) == figure_views(figures@).push(figure_of(format, value@)),
{
    let ghost before = figure_views(figures@);
    let mut out = figures;
    out.push(figure(format, value));
    assert(figure_views(out@) =~= before.push(figure_of(format, value@)));
    out
}

/// No numbers yet.
fn no_figures() -> (r: Vec<Option<Figure>>)
    ensures
        figure_views(r@) == Seq::<Option<FigureView>>::empty(),
{
    let out: Vec<Option<Figure>> = Vec::new();
    assert(figure_views(out@) =~= Seq::empty());
    out
}

// ─── Requests ───────────────────────────────────────────────────────────────

/// How many coins of the market are shown: ten where nothing is said, at least five, at most
/// twenty.
pub open spec fn market_limit(args: JsonView) -> nat {
    let n = args.at("limit"@).natural_or(10);
    if n < 5 {
        5
    } else if n > 20 {
        20
    } else {
        n as nat
    }
}

/// The address of the rates of a currency, given in capitals.
pub open spec fn rates_url(base: Seq<char>) -> Seq<char> {
    "https://open.er-api.com/v6/latest/"@ + urlencoded(base)
}

/// The address of a coin, given in lower case.
pub open spec fn coin_url(coin: Seq<char>) -> Seq<char> {
    "https://api.coingecko.com/api/v3/coins/"@ + urlencoded(coin)
        + "?localization=false&tickers=false&community_data=false&developer_data=false"@
}

/// The address of the rates of a currency, given in capitals.
pub fn rates_address(base: &str) -> (r: String)
    ensures
        r@ == rates_url(base@),
{
    let mut url = text("https://open.er-api.com/v6/latest/");
    let encoded = urlencode(base);
    url.append(encoded.as_str());
    url
}

/// The address of a coin, given in lower case.
pub fn coin_address(coin: &str) -> (r: String)
    ensures
        r@ == coin_url(coin@),
{
    let mut url = text("https://api.coingecko.com/api/v3/coins/");
    let encoded = urlencode(coin);
    url.append(encoded.as_str());
    url.append("?localization=false&tickers=false&community_data=false&developer_data=false");
    url
}

/// The address that a call of `tool` reads, or why it reads none.
pub open spec fn url_for(tool: Tool, args: JsonView) -> Result<Seq<char>, Seq<char>> {
    match tool {
        Tool::ExchangeRates => match needed(args, "base"@) {
            Err(e) => Err(e),
            Ok(base) => Ok(rates_url(uppercase(base))),
        },
        Tool::CryptoPrice => match needed(args, "coin_id"@) {
            Err(e) => Err(e),
            Ok(coin) => Ok(coin_url(lowercase(coin))),
        },
        Tool::CryptoSearch => match needed(args, "query"@) {
            Err(e) => Err(e),
            Ok(query) => Ok(
                "https://api.coingecko.com/api/v3/search?query="@ + urlencoded(query),
            ),
        },
        Tool::CryptoMarket => Ok(
            "https://api.coingecko.com/api/v3/coins/markets?vs_currency=usd&order=market_cap_desc&per_page="@
                + decimal(market_limit(args)) + "&page=1&sparkline=false"@,
        ),
    }
}

/// The request that a call of `tool` sends, or why it sends none. Services reject requests without
/// the name of an agent.
pub open spec fn request_for(tool: Tool, args: JsonView) -> Result<RequestView, Seq<char>> {
    match url_for(tool, args) {
        Err(e) => Err(e),
        Ok(url) => Ok(
            RequestView {
                url,
                user_agent: Some("nasiko-finance-agent/1.0"@),
                expect: Expect::Json,
            },
        ),
    }
}

/// The address that a call of `tool` reads, or why it reads none.
fn address(tool: Tool, args: &Json) -> (r: Result<String, String>)
    ensures
        outcome(r) == url_for(tool, args@),
{
    match tool {
        Tool::ExchangeRates => match need(args, "base") {
            Err(e) => Err(e),
            Ok(base) => {
                let big = upper(base);
                Ok(rates_address(big.as_str()))
            },
        },
        Tool::CryptoPrice => match need(args, "coin_id") {
            Err(e) => Err(e),
            Ok(coin) => {
                let small = lower(coin);
                Ok(coin_address(small.as_str()))
            },
        },
        Tool::CryptoSearch => match need(args, "query") {
            Err(e) => Err(e),
            Ok(query) => {
                let mut url = text("https://api.coingecko.com/api/v3/search?query=");
                let encoded = urlencode(query);
                url.append(encoded.as_str());
                Ok(url)
            },
        },
        Tool::CryptoMarket => {
            let n = args.at("limit").natural_or(10);
            let limit: u64 = if n < 5 {
                5
            } else if n > 20 {
                20
            } else {
                n
            };
            let mut url = text(
                "https://api.coingecko.com/api/v3/coins/markets?vs_currency=usd&order=market_cap_desc&per_page=",
            );
            let count = decimal_text(limit);
            url.append(count.as_str());
            url.append("&page=1&sparkline=false");
            Ok(url)
        },
    }
}

/// The request that a call of `tool` sends, or why it sends none.
pub fn request(tool: Tool, args: &Json) -> (r: Result<Request, String>)
    ensures
        request_view(r) == request_for(tool, args@),
{
    match address(tool, args) {
        Err(e) => Err(e),
        Ok(url) => Ok(get(url, Some("nasiko-finance-agent/1.0"), Expect::Json)),
    }
}

// ─── exchange_rates ─────────────────────────────────────────────────────────

/// The line on one rate.
pub open spec fn rate_line(base: Seq<char>, target: Seq<char>, rate: Option<JsonView>) -> Seq<char> {
    "  "@ + base + " -> "@ + target + ": "@ + (match rate {
        Some(r) => notation(r),
        None => "not available"@,
    }) + "\n"@
}

/// The lines on the currencies that are asked for, each given in capitals.
pub open spec fn asked_lines(base: Seq<char>, targets: Seq<Seq<char>>, rates: JsonView) -> Seq<char>
    decreases targets.len(),
{
    if targets.len() == 0 {
        Seq::empty()
    } else {
        asked_lines(base, targets.drop_last(), rates) + rate_line(
            base,
            targets.last(),
            rates.get(targets.last()),
        )
    }
}

/// The currencies that are shown where none are asked for.
pub open spec fn major_currencies() -> Seq<Seq<char>> {
    seq![
        "USD"@,
        "EUR"@,
        "GBP"@,
        "JPY"@,
        "CHF"@,
        "CAD"@,
        "AUD"@,
        "CNY"@,
        "INR"@,
        "BRL"@,
    ]
}

/// The lines on the first `n` major currencies, without the base itself and those without a rate.
pub open spec fn major_lines(base: Seq<char>, rates: JsonView, n: nat) -> Seq<char>
    decreases n,
{
    if n == 0 {
        Seq::empty()
    } else {
        let head = major_lines(base, rates, (n - 1) as nat);
        let currency = major_currencies()[n - 1];
        if currency == base {
            head
        } else {
            match rates.get(currency) {
                Some(rate) => head + rate_line(base, currency, Some(rate)),
                None => head,
            }
        }
    }
}

/// The texts among the items, in capitals.
pub open spec fn capitals(items: Seq<JsonView>) -> Seq<Seq<char>>
    decreases items.len(),
{
    if items.len() == 0 {
        Seq::empty()
    } else {
        match items.last().text() {
            Some(t) => capitals(items.drop_last()).push(uppercase(t)),
            None => capitals(items.drop_last()),
        }
    }
}

/// What is reported of exchange rates; base and targets are given in capitals.
pub open spec fn rates_report(
    base: Seq<char>,
    targets: Option<Seq<Seq<char>>>,
    resp: JsonView,
) -> Result<Seq<char>, Seq<char>> {
    if resp.at("result"@).text() != Some("success"@) {
        Err("API error: "@ + resp.at("error-type"@).text_or("unknown error"@))
    } else if resp.at("rates"@).members() is None {
        Err("missing rates in response"@)
    } else {
        let rates = resp.at("rates"@);
        Ok(
            "**Exchange Rates for "@ + base + "**\nLast updated: "@ + resp.at(
                "time_last_update_utc"@,
            ).text_or("unknown"@) + "\n\n"@ + match targets {
                Some(list) => asked_lines(base, list, rates),
                None => major_lines(base, rates, 10),
            },
        )
    }
}

/// The currencies that a call asks for, in capitals.
pub open spec fn targets_of(args: JsonView) -> Option<Seq<Seq<char>>> {
    match args.at("targets"@).items() {
        Some(items) => Some(capitals(items)),
        None => None,
    }
}

/// The report of `exchange_rates`.
pub open spec fn exchange_report(args: JsonView, reply: ReplyView) -> Result<Seq<char>, Seq<char>> {
    match asked(args, "base"@, reply) {
        Err(e) => Err(e),
        Ok((base, resp)) => rates_report(uppercase(base), targets_of(args), resp),
    }
}

/// The line on one rate.
fn show_rate(base: &str, target: &str, rate: Option<&Json>) -> (r: String)
    ensures
        r@ == rate_line(
            base@,
            target@,
            match rate {
                Some(j) => Some(j@),
                None => None,
            },
        ),
{
    let mut out = text("  ");
    out.append(base);
    out.append(" -> ");
    out.append(target);
    out.append(": ");
    match rate {
        Some(j) => {
            let written = compact(j);
            out.append(written.as_str());
        },
        None => out.append("not available"),
    }
    out.append("\n");
    out
}

/// The major currency with number `i`.
fn major(i: usize) -> (r: &'static str)
    requires
        i < 10,
    ensures
        r@ == major_currencies()[i as int],
{
    match i {
        0 => "USD",
        1 => "EUR",
        2 => "GBP",
        3 => "JPY",
        4 => "CHF",
        5 => "CAD",
        6 => "AUD",
        7 => "CNY",
        8 => "INR",
        _ => "BRL",
    }
}

/// The lines on the major currencies.
fn show_major(base: &str, rates: &Json) -> (r: String)
    ensures
        r@ == major_lines(base@, rates@, 10),
{
    let mut out = String::new();
    let mut i: usize = 0;
    while i < 10
        invariant
            i <= 10,
            out@ == major_lines(base@, rates@, i as nat),
        decreases 10 - i,
    {
        let currency = major(i);
        if !same(currency, base) {
            match rates.get(currency) {
                Some(rate) => {
                    let line = show_rate(base, currency, Some(rate));
                    out.append(line.as_str());
                },
                None => {},
            }
        }
        i += 1;
    }
    out
}

/// The lines on the currencies that are asked for.
fn show_asked(base: &str, targets: &Vec<String>, rates: &Json) -> (r: String)
    ensures
        r@ == asked_lines(base@, views(targets@), rates@),
{
    let ghost all = views(targets@);
    let mut out = String::new();
    let mut i: usize = 0;
    assert(all.take(0) =~= Seq::empty());
    while i < targets.len()
        invariant
            i <= targets@.len(),
            all == views(targets@),
            out@ == asked_lines(base@, all.take(i as int), rates@),
        decreases targets@.len() - i,
    {
        assert(all.take(i + 1).drop_last() =~= all.take(i as int));
        assert(all[i as int] == targets@[i as int]@);
        let target = targets[i].as_str();
        let line = show_rate(base, target, rates.get(target));
        out.append(line.as_str());
        i += 1;
    }
    assert(all.take(i as int) =~= all);
    out
}

/// The texts among the items, in capitals.
fn upper_texts(items: &Vec<Json>) -> (r: Vec<String>)
    ensures
        views(r@) == capitals(json_views(items@)),
{
    let ghost all = json_views(items@);
    let mut out: Vec<String> = Vec::new();
    let mut i: usize = 0;
    assert(views(out@) =~= capitals(all.take(0)));
    while i < items.len()
        invariant
            i <= items@.len(),
            all == json_views(items@),
            views(out@) == capitals(all.take(i as int)),
        decreases items@.len() - i,
    {
        let ghost before = views(out@);
        assert(all.take(i + 1).drop_last() =~= all.take(i as int));
        assert(all[i as int] == items@[i as int]@);
        match items[i].as_text() {
            Some(t) => {
                let big = upper(t);
                let ghost added = big@;
                out.push(big);
                assert(views(out@) =~= before.push(added));
            },
            None => {},
        }
        i += 1;
    }
    assert(all.take(i as int) =~= all);
    out
}

/// What is reported of exchange rates; base and targets are given in capitals.
pub fn report_rates(base: &str, targets: &Option<Vec<String>>, resp: &Json) -> (r: Result<
    String,
    String,
>)
    ensures
        outcome(r) == rates_report(
            base@,
            match targets {
                Some(list) => Some(views(list@)),
                None => None,
            },
            resp@,
        ),
{
    if !is_text(resp.at("result").as_text(), "success") {
        return Err(prefixed("API error: ", resp.at("error-type").text_or("unknown error")));
    }
    let rates = resp.at("rates");
    if rates.as_members().is_none() {
        return Err(text("missing rates in response"));
    }
    let mut out = text("**Exchange Rates for ");
    out.append(base);
    out.append("**\nLast updated: ");
    out.append(resp.at("time_last_update_utc").text_or("unknown"));
    out.append("\n\n");
    let lines = match targets {
        Some(list) => show_asked(base, list, rates),
        None => show_major(base, rates),
    };
    out.append(lines.as_str());
    Ok(out)
}

/// The report of `exchange_rates`.
pub fn exchange_rates(args: &Json, reply: &Reply) -> (r: Result<String, String>)
    ensures
        outcome(r) == exchange_report(args@, reply@),
{
    match ask(args, "base", reply) {
        Err(e) => Err(e),
        Ok((base, resp)) => {
            let big = upper(base);
            let targets = match args.at("targets").as_items() {
                Some(items) => Some(upper_texts(items)),
                None => None,
            };
            report_rates(big.as_str(), &targets, resp)
        },
    }
}

// ─── crypto_price ───────────────────────────────────────────────────────────

/// The numbers that are shown of a coin, in the order in which they are shown.
pub open spec fn price_figures(resp: JsonView) -> Seq<Option<FigureView>> {
    let market = resp.at("market_data"@);
    let price = market.at("current_price"@);
    Seq::empty().push(figure_of(Format::Price, price.at("usd"@))).push(
        figure_of(Format::Price, price.at("eur"@)),
    ).push(figure_of(Format::Bitcoin, price.at("btc"@))).push(
        figure_of(Format::Large, market.at("market_cap"@).at("usd"@)),
    ).push(figure_of(Format::Percent, market.at("price_change_percentage_24h"@))).push(
        figure_of(Format::Price, market.at("high_24h"@).at("usd"@)),
    ).push(figure_of(Format::Price, market.at("low_24h"@).at("usd"@))).push(
        figure_of(Format::Price, market.at("ath"@).at("usd"@)),
    ).push(figure_of(Format::Large, market.at("circulating_supply"@)))
}

/// What is reported of a coin, given its symbol in capitals and its numbers as they are shown.
pub open spec fn price_text(
    resp: JsonView,
    symbol: Seq<char>,
    figures: Seq<Option<Seq<char>>>,
) -> Seq<char> {
    "**"@ + resp.at("name"@).text_or("Unknown"@) + " ("@ + symbol + ")**\n\nPrice (USD): $"@
        + figure_at(figures, 0) + "\nPrice (EUR): \u{20ac}"@ + figure_at(figures, 1)
        + "\nPrice (BTC): "@ + figure_at(figures, 2) + "\nMarket Cap:  $"@ + figure_at(figures, 3)
        + "\n24h Change:  "@ + figure_at(figures, 4) + "\n24h High:    $"@ + figure_at(figures, 5)
        + "\n24h Low:     $"@ + figure_at(figures, 6) + "\nATH:         $"@ + figure_at(figures, 7)
        + "\nCirculating: "@ + figure_at(figures, 8)
}

/// The record of a coin, or what the service or the way to it says instead.
pub open spec fn coin_record(args: JsonView, reply: ReplyView) -> Result<JsonView, Seq<char>> {
    match asked(args, "coin_id"@, reply) {
        Err(e) => Err(e),
        Ok((_, resp)) => match resp.at("error"@).text() {
            Some(error) => Err("CoinGecko error: "@ + error),
            None => Ok(resp),
        },
    }
}

/// The record of a coin, or what the service or the way to it says instead.
fn read_coin<'a>(args: &Json, reply: &'a Reply) -> (r: Result<&'a Json, String>)
    ensures
        match r {
            Ok(j) => coin_record(args@, reply@) == Ok::<JsonView, Seq<char>>(j@),
            Err(e) => coin_record(args@, reply@) == Err::<JsonView, Seq<char>>(e@),
        },
{
    match need(args, "coin_id") {
        Err(e) => Err(e),
        Ok(_) => match body_json(reply) {
            Err(e) => Err(e),
            Ok(resp) => match resp.at("error").as_text() {
                Some(error) => Err(prefixed("CoinGecko error: ", error)),
                None => Ok(resp),
            },
        },
    }
}

/// The numbers that are shown of a coin.
pub fn figures_of_price(resp: &Json) -> (r: Vec<Option<Figure>>)
    ensures
        figure_views(r@) == price_figures(resp@),
{
    let market = resp.at("market_data");
    let price = market.at("current_price");
    let out = with_figure(no_figures(), Format::Price, price.at("usd"));
    let out = with_figure(out, Format::Price, price.at("eur"));
    let out = with_figure(out, Format::Bitcoin, price.at("btc"));
    let out = with_figure(out, Format::Large, market.at("market_cap").at("usd"));
    let out = with_figure(out, Format::Percent, market.at("price_change_percentage_24h"));
    let out = with_figure(out, Format::Price, market.at("high_24h").at("usd"));
    let out = with_figure(out, Format::Price, market.at("low_24h").at("usd"));
    let out = with_figure(out, Format::Price, market.at("ath").at("usd"));
    with_figure(out, Format::Large, market.at("circulating_supply"))
}

/// What is reported of a coin, given its symbol in capitals and its numbers as they are shown.
pub fn report_price(resp: &Json, symbol: &str, figures: &Vec<Option<String>>) -> (r: String)
    ensures
        r@ == price_text(resp@, symbol@, shown_views(figures@)),
{
    let mut out = text("**");
    out.append(resp.at("name").text_or("Unknown"));
    out.append(" (");
    out.append(symbol);
    out.append(")**\n\nPrice (USD): $");
    let f0 = shown_figure(figures, 0);
    out.append(f0.as_str());
    out.append("\nPrice (EUR): \u{20ac}");
    let f1 = shown_figure(figures, 1);
    out.append(f1.as_str());
    out.append("\nPrice (BTC): ");
    let f2 = shown_figure(figures, 2);
    out.append(f2.as_str());
    out.append("\nMarket Cap:  $");
    let f3 = shown_figure(figures, 3);
    out.append(f3.as_str());
    out.append("\n24h Change:  ");
    let f4 = shown_figure(figures, 4);
    out.append(f4.as_str());
    out.append("\n24h High:    $");
    let f5 = shown_figure(figures, 5);
    out.append(f5.as_str());
    out.append("\n24h Low:     $");
    let f6 = shown_figure(figures, 6);
    out.append(f6.as_str());
    out.append("\nATH:         $");
    let f7 = shown_figure(figures, 7);
    out.append(f7.as_str());
    out.append("\nCirculating: ");
    let f8 = shown_figure(figures, 8);
    out.append(f8.as_str());
    out
}

// ─── crypto_search ──────────────────────────────────────────────────────────

/// One coin of a search, given its symbol in capitals.
pub open spec fn coin_entry(coin: JsonView, symbol: Seq<char>) -> Seq<char> {
    "  "@ + coin.at("name"@).text_or("Unknown"@) + " ("@ + symbol + ") - ID: `"@ + coin.at(
        "id"@,
    ).text_or("unknown"@) + "` - Rank: "@ + match coin.at("market_cap_rank"@).natural() {
        Some(rank) => "#"@ + decimal(rank as nat),
        None => "unranked"@,
    }
}

/// The symbol of a coin, in capitals.
pub open spec fn symbol_of(coin: JsonView) -> Seq<char> {
    uppercase(coin.at("symbol"@).text_or(""@))
}

/// The report of `crypto_search`.
pub open spec fn search_report(args: JsonView, reply: ReplyView) -> Result<Seq<char>, Seq<char>> {
    match asked(args, "query"@, reply) {
        Err(e) => Err(e),
        Ok((query, resp)) => match resp.at("coins"@).items() {
            None => Err("no results"@),
            Some(coins) => if coins.len() == 0 {
                Ok("No cryptocurrencies found for '"@ + query + "'."@)
            } else {
                Ok(
                    "**Search results for '"@ + query + "':**\n\n"@ + join(
                        Seq::new(
                            if coins.len() < 5 {
                                coins.len()
                            } else {
                                5
                            },
                            |i: int| coin_entry(coins[i], symbol_of(coins[i])),
                        ),
                        "\n"@,
                    ),
                )
            },
        },
    }
}

/// One coin of a search, given its symbol in capitals.
pub fn show_coin(coin: &Json, symbol: &str) -> (r: String)
    ensures
        r@ == coin_entry(coin@, symbol@),
{
    let mut out = text("  ");
    out.append(coin.at("name").text_or("Unknown"));
    out.append(" (");
    out.append(symbol);
    out.append(") - ID: `");
    out.append(coin.at("id").text_or("unknown"));
    out.append("` - Rank: ");
    let rank = match coin.at("market_cap_rank").as_natural() {
        Some(rank) => {
            let mut shown_rank = text("#");
            let number = decimal_text(rank);
            shown_rank.append(number.as_str());
            shown_rank
        },
        None => text("unranked"),
    };
    out.append(rank.as_str());
    out
}

/// The report of `crypto_search`.
pub fn crypto_search(args: &Json, reply: &Reply) -> (r: Result<String, String>)
    ensures
        outcome(r) == search_report(args@, reply@),
{
    match ask(args, "query", reply) {
        Err(e) => Err(e),
        Ok((query, resp)) => match resp.at("coins").as_items() {
            None => Err(text("no results")),
            Some(coins) => {
                let ghost all = json_views(coins@);
                if coins.len() == 0 {
                    let mut out = text("No cryptocurrencies found for '");
                    out.append(query);
                    out.append("'.");
                    return Ok(out);
                }
                let count: usize = if coins.len() < 5 {
                    coins.len()
                } else {
                    5
                };
                let mut entries: Vec<String> = Vec::new();
                let mut i: usize = 0;
                while i < count
                    invariant
                        i <= count <= coins@.len(),
                        all == json_views(coins@),
                        views(entries@) == Seq::new(
                            i as nat,
                            |j: int| coin_entry(all[j], symbol_of(all[j])),
                        ),
                    decreases count - i,
                {
                    let ghost before = views(entries@);
                    let symbol = upper(coins[i].at("symbol").text_or(""));
                    entries.push(show_coin(&coins[i], symbol.as_str()));
                    assert(views(entries@) =~= before.push(
                        coin_entry(all[i as int], symbol_of(all[i as int])),
                    ));
                    i += 1;
                    assert(views(entries@) =~= Seq::new(
                        i as nat,
                        |j: int| coin_entry(all[j], symbol_of(all[j])),
                    ));
                }
                let mut out = text("**Search results for '");
                out.append(query);
                out.append("':**\n\n");
                let joined = join_texts(&entries, "\n");
                out.append(joined.as_str());
                Ok(out)
            },
        },
    }
}

// ─── crypto_market ──────────────────────────────────────────────────────────

/// The numbers that are shown of the coins of the market: three of each coin.
pub open spec fn market_figures(coins: Seq<JsonView>) -> Seq<Option<FigureView>>
    decreases coins.len(),
{
    if coins.len() == 0 {
        Seq::empty()
    } else {
        let coin = coins.last();
        market_figures(coins.drop_last()).push(
            figure_of(Format::Price, coin.at("current_price"@)),
        ).push(figure_of(Format::Percent, coin.at("price_change_percentage_24h"@))).push(
            figure_of(Format::Large, coin.at("market_cap"@)),
        )
    }
}

/// The line on the coin with number `i` of the market, given its symbol in capitals.
pub open spec fn market_line(
    coin: JsonView,
    symbol: Seq<char>,
    figures: Seq<Option<Seq<char>>>,
    i: int,
) -> Seq<char> {
    "  #"@ + decimal(coin.at("market_cap_rank"@).natural_or(0) as nat) + " "@ + coin.at(
        "name"@,
    ).text_or("Unknown"@) + " ("@ + symbol + "): $"@ + figure_at(figures, 3 * i) + " ("@
        + figure_at(figures, 3 * i + 1) + ") - MCap: $"@ + figure_at(figures, 3 * i + 2) + "\n"@
}

/// The lines on the coins of the market.
pub open spec fn market_lines(coins: Seq<JsonView>, figures: Seq<Option<Seq<char>>>) -> Seq<char>
    decreases coins.len(),
{
    if coins.len() == 0 {
        Seq::empty()
    } else {
        market_lines(coins.drop_last(), figures) + market_line(
            coins.last(),
            symbol_of(coins.last()),
            figures,
            coins.len() - 1,
        )
    }
}

/// The coins of the market, or what went wrong.
pub open spec fn market_coins(reply: ReplyView) -> Result<Seq<JsonView>, Seq<char>> {
    match json_body(reply) {
        Err(e) => Err(e),
        Ok(resp) => match resp.items() {
            None => Err("unexpected response format"@),
            Some(coins) => Ok(coins),
        },
    }
}

/// What is reported of the market, given its numbers as they are shown.
pub open spec fn market_text(coins: Seq<JsonView>, figures: Seq<Option<Seq<char>>>) -> Seq<char> {
    if coins.len() == 0 {
        "No market data available."@
    } else {
        "**Top Cryptocurrencies by Market Cap**\n\n"@ + market_lines(coins, figures)
    }
}

/// The coins of the market, or what went wrong.
fn read_market(reply: &Reply) -> (r: Result<&Vec<Json>, String>)
    ensures
        match r {
            Ok(coins) => market_coins(reply@) == Ok::<Seq<JsonView>, Seq<char>>(json_views(coins@)),
            Err(e) => market_coins(reply@) == Err::<Seq<JsonView>, Seq<char>>(e@),
        },
{
    match body_json(reply) {
        Err(e) => Err(e),
        Ok(resp) => match resp.as_items() {
            None => Err(text("unexpected response format")),
            Some(coins) => Ok(coins),
        },
    }
}

/// The numbers that are shown of the coins of the market.
pub fn figures_of_market(coins: &Vec<Json>) -> (r: Vec<Option<Figure>>)
    ensures
        figure_views(r@) == market_figures(json_views(coins@)),
{
    let ghost all = json_views(coins@);
    let mut out = no_figures();
    let mut i: usize = 0;
    assert(all.take(0) =~= Seq::empty());
    while i < coins.len()
        invariant
            i <= coins@.len(),
            all == json_views(coins@),
            figure_views(out@) == market_figures(all.take(i as int)),
        decreases coins@.len() - i,
    {
        assert(all.take(i + 1).drop_last() =~= all.take(i as int));
        assert(all[i as int] == coins@[i as int]@);
        out = with_figure(out, Format::Price, coins[i].at("current_price"));
        out = with_figure(out, Format::Percent, coins[i].at("price_change_percentage_24h"));
        out = with_figure(out, Format::Large, coins[i].at("market_cap"));
        i += 1;
    }
    assert(all.take(i as int) =~= all);
    out
}

/// How the number at position `3 * i + k` is shown; past all positions there is none.
fn market_figure(figures: &Vec<Option<String>>, i: usize, k: usize) -> (r: String)
    requires
        k < 3,
    ensures
        r@ == figure_at(shown_views(figures@), 3 * i + k),
{
    if i > figures.len() / 3 {
        text("N/A")
    } else if i == figures.len() / 3 {
        let rest: usize = figures.len() % 3;
        if k < rest {
            shown_figure(figures, 3 * i + k)
        } else {
            text("N/A")
        }
    } else {
        shown_figure(figures, 3 * i + k)
    }
}

/// The line on the coin with number `i` of the market, given its symbol in capitals.
pub fn show_market_coin(
    coin: &Json,
    symbol: &str,
    figures: &Vec<Option<String>>,
    i: usize,
) -> (r: String)
    ensures
        r@ == market_line(coin@, symbol@, shown_views(figures@), i as int),
{
    let mut out = text("  #");
    let rank = decimal_text(coin.at("market_cap_rank").natural_or(0));
    out.append(rank.as_str());
    out.append(" ");
    out.append(coin.at("name").text_or("Unknown"));
    out.append(" (");
    out.append(symbol);
    out.append("): $");
    let price = market_figure(figures, i, 0);
    out.append(price.as_str());
    out.append(" (");
    let change = market_figure(figures, i, 1);
    out.append(change.as_str());
    out.append(") - MCap: $");
    let cap = market_figure(figures, i, 2);
    out.append(cap.as_str());
    out.append("\n");
    out
}

/// What is reported of the market, given its numbers as they are shown.
pub fn report_market(coins: &Vec<Json>, figures: &Vec<Option<String>>) -> (r: String)
    ensures
        r@ == market_text(json_views(coins@), shown_views(figures@)),
{
    let ghost all = json_views(coins@);
    assert(all.len() == coins@.len());
    if coins.len() == 0 {
        return text("No market data available.");
    }
    let mut lines = String::new();
    let mut i: usize = 0;
    assert(all.take(0) =~= Seq::empty());
    while i < coins.len()
        invariant
            i <= coins@.len(),
            all == json_views(coins@),
            lines@ == market_lines(all.take(i as int), shown_views(figures@)),
        decreases coins@.len() - i,
    {
        assert(all.take(i + 1).drop_last() =~= all.take(i as int));
        assert(all[i as int] == coins@[i as int]@);
        let symbol = upper(coins[i].at("symbol").text_or(""));
        let line = show_market_coin(&coins[i], symbol.as_str(), figures, i);
        lines.append(line.as_str());
        i += 1;
    }
    assert(all.take(i as int) =~= all);
    let mut out = text("**Top Cryptocurrencies by Market Cap**\n\n");
    out.append(lines.as_str());
    out
}

// ─── Tool calls ─────────────────────────────────────────────────────────────

/// How a tool call goes on.
#[derive(Debug)]
pub enum Step {
    Fetch(Request),
    /// Show these numbers, each as its format says, and hand back how they are shown.
    Format(Vec<Option<Figure>>),
    Done(String),
}

/// How a tool call goes on.
#[verifier::ext_equal]
pub enum StepView {
    Fetch(RequestView),
    Format(Seq<Option<FigureView>>),
    Done(Seq<char>),
}

impl View for Step {
    type V = StepView;

    open spec fn view(&self) -> StepView {
        match self {
            Step::Fetch(request) => StepView::Fetch(request@),
            Step::Format(figures) => StepView::Format(figure_views(figures@)),
            Step::Done(s) => StepView::Done(s@),
        }
    }
}

/// How a call of `tool` goes on once a reply is there; `figures` are the numbers as they are shown,
/// once they are.
pub open spec fn after_reply(
    tool: Tool,
    args: JsonView,
    reply: ReplyView,
    figures: Option<Seq<Option<Seq<char>>>>,
) -> StepView {
    match tool {
        Tool::ExchangeRates => StepView::Done(shown(exchange_report(args, reply))),
        Tool::CryptoSearch => StepView::Done(shown(search_report(args, reply))),
        Tool::CryptoPrice => match coin_record(args, reply) {
            Err(e) => StepView::Done(shown(Err(e))),
            Ok(resp) => match figures {
                None => StepView::Format(price_figures(resp)),
                Some(f) => StepView::Done(price_text(resp, symbol_of(resp), f)),
            },
        },
        Tool::CryptoMarket => match market_coins(reply) {
            Err(e) => StepView::Done(shown(Err(e))),
            Ok(coins) => match figures {
                None => StepView::Format(market_figures(coins)),
                Some(f) => StepView::Done(market_text(coins, f)),
            },
        },
    }
}

/// What the arguments of a call count as: for the market, none can be read as no arguments.
pub open spec fn arguments_for(tool: Tool, args: Result<JsonView, Seq<char>>) -> Result<
    JsonView,
    Seq<char>,
> {
    match args {
        Ok(j) => Ok(j),
        Err(e) => if tool == Tool::CryptoMarket {
            Ok(JsonView::Null)
        } else {
            Err(e)
        },
    }
}

/// How the call of the tool `name` goes on, given what its arguments were read as.
pub open spec fn dispatched(
    name: Seq<char>,
    args: Result<JsonView, Seq<char>>,
    replies: Seq<ReplyView>,
    figures: Option<Seq<Option<Seq<char>>>>,
) -> StepView {
    match tool_of(name) {
        None => StepView::Done(shown(Err("Unknown tool: "@ + name))),
        Some(tool) => match arguments_for(tool, args) {
            Err(e) => StepView::Done(shown(Err(e))),
            Ok(j) => match request_for(tool, j) {
                Err(e) => StepView::Done(shown(Err(e))),
                Ok(r) => if replies.len() == 0 {
                    StepView::Fetch(r)
                } else {
                    after_reply(tool, j, replies[0], figures)
                },
            },
        },
    }
}

/// The views of numbers as they are shown, once they are.
pub open spec fn formatted_view(figures: Option<Vec<Option<String>>>) -> Option<
    Seq<Option<Seq<char>>>,
> {
    match figures {
        Some(f) => Some(shown_views(f@)),
        None => None,
    }
}

/// How a call of `tool` goes on once a reply is there.
fn go_on(tool: Tool, args: &Json, reply: &Reply, figures: &Option<Vec<Option<String>>>) -> (r: Step)
    ensures
        r@ == after_reply(tool, args@, reply@, formatted_view(*figures)),
{
    match tool {
        Tool::ExchangeRates => Step::Done(show(exchange_rates(args, reply))),
        Tool::CryptoSearch => Step::Done(show(crypto_search(args, reply))),
        Tool::CryptoPrice => match read_coin(args, reply) {
            Err(e) => Step::Done(show(Err(e))),
            Ok(resp) => match figures {
                None => Step::Format(figures_of_price(resp)),
                Some(f) => {
                    let symbol = upper(resp.at("symbol").text_or(""));
                    Step::Done(report_price(resp, symbol.as_str(), f))
                },
            },
        },
        Tool::CryptoMarket => match read_market(reply) {
            Err(e) => Step::Done(show(Err(e))),
            Ok(coins) => match figures {
                None => Step::Format(figures_of_market(coins)),
                Some(f) => Step::Done(report_market(coins, f)),
            },
        },
    }
}

/// How the call of the tool `name` goes on, given what its arguments were read as.
pub fn dispatch(
    name: &str,
    args: &Result<Json, String>,
    replies: &Vec<Reply>,
    figures: &Option<Vec<Option<String>>>,
) -> (r: Step)
    ensures
        r@ == dispatched(
            name@,
            parsed_view(*args),
            reply_views(replies@),
            formatted_view(*figures),
        ),
{
    match tool_named(name) {
        None => Step::Done(show(Err(prefixed("Unknown tool: ", name)))),
        Some(tool) => {
            let j = match args {
                Ok(j) => j,
                Err(e) => match tool {
                    Tool::CryptoMarket => &Json::Null,
                    _ => {
                        return Step::Done(show(Err(text(e.as_str()))));
                    },
                },
            };
            match request(tool, j) {
                Err(e) => Step::Done(show(Err(e))),
                Ok(first) => {
                    if replies.len() == 0 {
                        return Step::Fetch(first);
                    }
                    assert(reply_views(replies@)[0] == replies@[0]@);
                    go_on(tool, j, &replies[0], figures)
                },
            }
        },
    }
}

/// Carries a tool call on: `arguments` is the JSON text from the model, `replies` what came back
/// for the requests so far, `figures` how the numbers are shown that were to be shown. Ends in a
/// text for the model; an error is formatted, not raised.
pub fn execute(
    name: &str,
    arguments: &str,
    replies: &Vec<Reply>,
    figures: &Option<Vec<Option<String>>>,
) -> (r: Step)
    ensures
        r@ == dispatched(
            name@,
            json_of_text(arguments@),
            reply_views(replies@),
            formatted_view(*figures),
        ),
{
    let args = parse(arguments);
    dispatch(name, &args, replies, figures)
}

/// However many coins are asked for, between five and twenty are shown.
pub proof fn market_limit_is_clamped(args: JsonView)
    ensures
        5 <= market_limit(args) <= 20,
        args.at("limit"@).natural() matches Some(n) ==> (5 <= n <= 20 ==> market_limit(args) == n),
        args.at("limit"@).natural() is None ==> market_limit(args) == 10,
{
}

/// The tools that are advertised to the model are the ones that it can call.
pub proof fn advertised_tools_can_be_called(name: Seq<char>)
    ensures
        advertises(definitions_view(), name) <==> tool_of(name) is Some,
{
    let all = definitions_view();
    definitions_are_named();
    assert(schema_name(all[0]) == Some("exchange_rates"@));
    assert(schema_name(all[1]) == Some("crypto_price"@));
    assert(schema_name(all[2]) == Some("crypto_search"@));
    assert(schema_name(all[3]) == Some("crypto_market"@));
}

} // verus!

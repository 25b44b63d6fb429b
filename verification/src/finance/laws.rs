//! What the finance tools read and report, from the members of an answer to the labels of a report.

use vstd::prelude::*;

use super::tools::{
    after_reply, asked_lines, capitals, coin_entry, dispatched, figure_at, major_lines,
    market_figures, market_line, market_lines, market_text, price_figures, rate_line, request_for,
    symbol_of, targets_of, FigureView, Format, StepView, Tool,
};
use crate::http::{Expect, ReplyView};
use crate::json::JsonView;
use crate::json::notation::notation;
use crate::text::case::{lowercase, uppercase};
use crate::text::decimal;
use crate::text::laws::joined_parts_stand;
use crate::text::search::{contains, group_contained};
use crate::text::url::urlencoded;

verus! {

/// What stands for a member of an answer in a report, where numbers are written as `write` does:
/// the number as it is written in the given format, or that there is none.
pub open spec fn written(
    write: spec_fn(FigureView) -> Seq<char>,
    format: Format,
    member: JsonView,
) -> Seq<char> {
    match member {
        JsonView::Natural(n) => write(FigureView { format, number: decimal(n as nat) }),
        JsonView::Decimal(s) => write(FigureView { format, number: s }),
        _ => "N/A"@,
    }
}

/// The numbers that are to be shown, as `write` writes them.
pub open spec fn all_written(
    write: spec_fn(FigureView) -> Seq<char>,
    figures: Seq<Option<FigureView>>,
) -> Seq<Option<Seq<char>>> {
    figures.map_values(
        |figure: Option<FigureView>|
            match figure {
                Some(f) => Some(write(f)),
                None => None,
            },
    )
}

/// In the report on a coin, behind each label stands the number of the member that the label names,
/// however numbers are written.
pub proof fn coin_is_reported(
    args: JsonView,
    resp: JsonView,
    write: spec_fn(FigureView) -> Seq<char>,
)
    requires
        args.at("coin_id"@) is Text,
        !(resp.at("error"@) is Text),
    ensures
        after_reply(Tool::CryptoPrice, args, ReplyView::Json(resp), None) matches StepView::Format(
            figures,
        ) && (after_reply(
            Tool::CryptoPrice,
            args,
            ReplyView::Json(resp),
            Some(all_written(write, figures)),
        ) matches StepView::Done(report) && {
            let market = resp.at("market_data"@);
            let price = market.at("current_price"@);
            &&& resp.at("name"@) matches JsonView::Text(name) ==> contains(report, "**"@ + name)
            &&& resp.at("symbol"@) matches JsonView::Text(symbol) ==> contains(
                report,
                " ("@ + uppercase(symbol),
            )
            &&& contains(
                report,
                ")**\n\nPrice (USD): $"@ + written(write, Format::Price, price.at("usd"@)),
            )
            &&& contains(
                report,
                "\nPrice (EUR): \u{20ac}"@ + written(write, Format::Price, price.at("eur"@)),
            )
            &&& contains(
                report,
                "\nPrice (BTC): "@ + written(write, Format::Bitcoin, price.at("btc"@)),
            )
            &&& contains(
                report,
                "\nMarket Cap:  $"@ + written(
                    write,
                    Format::Large,
                    market.at("market_cap"@).at("usd"@),
                ),
            )
            &&& contains(
                report,
                "\n24h Change:  "@ + written(
                    write,
                    Format::Percent,
                    market.at("price_change_percentage_24h"@),
                ),
            )
            &&& contains(
                report,
                "\n24h High:    $"@ + written(
                    write,
                    Format::Price,
                    market.at("high_24h"@).at("usd"@),
                ),
            )
            &&& contains(
                report,
                "\n24h Low:     $"@ + written(write, Format::Price, market.at("low_24h"@).at("usd"@)),
            )
            &&& contains(
                report,
                "\nATH:         $"@ + written(write, Format::Price, market.at("ath"@).at("usd"@)),
            )
            &&& contains(
                report,
                "\nCirculating: "@ + written(write, Format::Large, market.at("circulating_supply"@)),
            )
        }),
{
    broadcast use group_contained;

    let market = resp.at("market_data"@);
    let price = market.at("current_price"@);
    let figures = all_written(write, price_figures(resp));
    assert(figure_at(figures, 0) == written(write, Format::Price, price.at("usd"@)));
    assert(figure_at(figures, 1) == written(write, Format::Price, price.at("eur"@)));
    assert(figure_at(figures, 2) == written(write, Format::Bitcoin, price.at("btc"@)));
    assert(figure_at(figures, 3) == written(
        write,
        Format::Large,
        market.at("market_cap"@).at("usd"@),
    ));
    assert(figure_at(figures, 4) == written(
        write,
        Format::Percent,
        market.at("price_change_percentage_24h"@),
    ));
    assert(figure_at(figures, 5) == written(write, Format::Price, market.at("high_24h"@).at("usd"@)));
    assert(figure_at(figures, 6) == written(write, Format::Price, market.at("low_24h"@).at("usd"@)));
    assert(figure_at(figures, 7) == written(write, Format::Price, market.at("ath"@).at("usd"@)));
    assert(figure_at(figures, 8) == written(write, Format::Large, market.at("circulating_supply"@)));
}

/// Each coin of the market has its line in the report: its rank, name and symbol, and behind these
/// its own price, change and market value, however numbers are written.
pub proof fn market_is_reported(
    args: JsonView,
    coins: Seq<JsonView>,
    write: spec_fn(FigureView) -> Seq<char>,
    i: int,
)
    requires
        0 <= i < coins.len(),
    ensures
        after_reply(
            Tool::CryptoMarket,
            args,
            ReplyView::Json(JsonView::List(coins)),
            None,
        ) matches StepView::Format(figures) && (after_reply(
            Tool::CryptoMarket,
            args,
            ReplyView::Json(JsonView::List(coins)),
            Some(all_written(write, figures)),
        ) matches StepView::Done(report) && contains(
            report,
            "  #"@ + decimal(coins[i].at("market_cap_rank"@).natural_or(0) as nat) + " "@
                + coins[i].at("name"@).text_or("Unknown"@) + " ("@ + uppercase(
                coins[i].at("symbol"@).text_or(""@),
            ) + "): $"@ + written(write, Format::Price, coins[i].at("current_price"@)) + " ("@
                + written(write, Format::Percent, coins[i].at("price_change_percentage_24h"@))
                + ") - MCap: $"@ + written(write, Format::Large, coins[i].at("market_cap"@))
                + "\n"@,
        )),
{
    broadcast use group_contained;

    let figures = all_written(write, market_figures(coins));
    market_figures_of(coins, i);
    assert(figure_at(figures, 3 * i) == written(
        write,
        Format::Price,
        coins[i].at("current_price"@),
    ));
    assert(figure_at(figures, 3 * i + 1) == written(
        write,
        Format::Percent,
        coins[i].at("price_change_percentage_24h"@),
    ));
    assert(figure_at(figures, 3 * i + 2) == written(
        write,
        Format::Large,
        coins[i].at("market_cap"@),
    ));
    line_is_there(coins, figures, i);
}

proof fn market_figures_of(coins: Seq<JsonView>, i: int)
    requires
        0 <= i < coins.len(),
    ensures
        ({
            let figures = market_figures(coins);
            &&& figures.len() == 3 * coins.len()
            &&& figures[3 * i] == super::tools::figure_of(
                Format::Price,
                coins[i].at("current_price"@),
            )
            &&& figures[3 * i + 1] == super::tools::figure_of(
                Format::Percent,
                coins[i].at("price_change_percentage_24h"@),
            )
            &&& figures[3 * i + 2] == super::tools::figure_of(
                Format::Large,
                coins[i].at("market_cap"@),
            )
        }),
    decreases coins.len(),
{
    let head = coins.drop_last();
    if head.len() == 0 {
        assert(market_figures(head).len() == 0);
    } else if i < head.len() {
        market_figures_of(head, i);
        assert(head[i] == coins[i]);
    } else {
        market_figures_of(head, 0);
    }
}

proof fn line_is_there(coins: Seq<JsonView>, figures: Seq<Option<Seq<char>>>, i: int)
    requires
        0 <= i < coins.len(),
    ensures
        contains(
            market_lines(coins, figures),
            market_line(coins[i], symbol_of(coins[i]), figures, i),
        ),
    decreases coins.len(),
{
    broadcast use group_contained;

    if i < coins.len() - 1 {
        line_is_there(coins.drop_last(), figures, i);
        assert(coins.drop_last()[i] == coins[i]);
    }
}

/// The coins of the market are reported in their order: one more coin adds to the end of the report.
pub proof fn market_keeps_the_order(
    coins: Seq<JsonView>,
    coin: JsonView,
    figures: Seq<Option<Seq<char>>>,
)
    requires
        coins.len() > 0,
    ensures
        market_text(coins, figures).is_prefix_of(market_text(coins.push(coin), figures)),
{
    assert(coins.push(coin).drop_last() =~= coins);
    let before = market_text(coins, figures);
    let after = market_text(coins.push(coin), figures);
    assert(before =~= after.take(before.len() as int));
}

/// The rates that are asked for are reported, each for its own currency as the service gives it;
/// one that the service does not give is said to be missing.
pub proof fn asked_rates_are_reported(
    args: JsonView,
    base: Seq<char>,
    targets: Seq<JsonView>,
    resp: JsonView,
    i: int,
    target: Seq<char>,
)
    requires
        args.at("base"@) == JsonView::Text(base),
        args.at("targets"@) == JsonView::List(targets),
        resp.at("result"@) == JsonView::Text("success"@),
        resp.at("rates"@) is Object,
        0 <= i < targets.len(),
        targets[i] == JsonView::Text(target),
    ensures
        after_reply(Tool::ExchangeRates, args, ReplyView::Json(resp), None) matches StepView::Done(
            report,
        ) && {
            &&& contains(report, "**Exchange Rates for "@ + uppercase(base))
            &&& resp.at("time_last_update_utc"@) matches JsonView::Text(t) ==> contains(
                report,
                "**\nLast updated: "@ + t,
            )
            &&& resp.at("rates"@).get(uppercase(target)) matches Some(rate) ==> contains(
                report,
                "  "@ + uppercase(base) + " -> "@ + uppercase(target) + ": "@ + notation(rate)
                    + "\n"@,
            )
            &&& resp.at("rates"@).get(uppercase(target)) is None ==> contains(
                report,
                "  "@ + uppercase(base) + " -> "@ + uppercase(target) + ": "@ + "not available"@
                    + "\n"@,
            )
        },
{
    broadcast use group_contained;

    let rates = resp.at("rates"@);
    let big = uppercase(base);
    let k = capital_of(targets, i);
    let list = capitals(targets);
    asked_line_is_there(big, list, rates, k);
    let lines = asked_lines(big, list, rates);
    let line = rate_line(big, uppercase(target), rates.get(uppercase(target)));
    assert(contains(lines, line));
    assert(targets_of(args) == Some(list));
    let head = "**Exchange Rates for "@ + big;
    assert(contains(head, head));
}

/// Where a target is among those in capitals.
proof fn capital_of(items: Seq<JsonView>, i: int) -> (k: int)
    requires
        0 <= i < items.len(),
        items[i] is Text,
    ensures
        0 <= k < capitals(items).len(),
        capitals(items)[k] == uppercase(items[i]->Text_0),
    decreases items.len(),
{
    if i < items.len() - 1 {
        let k = capital_of(items.drop_last(), i);
        assert(items.drop_last()[i] == items[i]);
        k
    } else {
        capitals(items).len() - 1
    }
}

proof fn asked_line_is_there(base: Seq<char>, targets: Seq<Seq<char>>, rates: JsonView, i: int)
    requires
        0 <= i < targets.len(),
    ensures
        contains(
            asked_lines(base, targets, rates),
            rate_line(base, targets[i], rates.get(targets[i])),
        ),
    decreases targets.len(),
{
    broadcast use group_contained;

    if i < targets.len() - 1 {
        asked_line_is_there(base, targets.drop_last(), rates, i);
        assert(targets.drop_last()[i] == targets[i]);
    }
}

/// The currencies that are shown where none is asked for.
pub open spec fn shown_unasked() -> Seq<Seq<char>> {
    seq![
        "USD"@,
        "EUR"@,
        "GBP"@,
        "JPY"@,
        "CHF"@,
        "CAD"@,
        "AUD"@,
        "CNY"@,
        "INR"@,
        "BRL"@,
    ]
}

/// Where no rates are asked for, those of the major currencies are reported, each as the service
/// gives it; the base itself is left out.
pub proof fn major_rates_are_reported(
    args: JsonView,
    base: Seq<char>,
    resp: JsonView,
    i: int,
    rate: JsonView,
)
    requires
        args.at("base"@) == JsonView::Text(base),
        !(args.at("targets"@) is List),
        resp.at("result"@) == JsonView::Text("success"@),
        resp.at("rates"@) is Object,
        0 <= i < 10,
        shown_unasked()[i] != uppercase(base),
        resp.at("rates"@).get(shown_unasked()[i]) == Some(rate),
    ensures
        after_reply(Tool::ExchangeRates, args, ReplyView::Json(resp), None) matches StepView::Done(
            report,
        ) && contains(
            report,
            "  "@ + uppercase(base) + " -> "@ + shown_unasked()[i] + ": "@ + notation(rate)
                + "\n"@,
        ),
{
    broadcast use group_contained;

    let rates = resp.at("rates"@);
    assert(super::tools::major_currencies() =~= shown_unasked());
    major_line_is_there(uppercase(base), rates, 10, i, rate);
    assert(targets_of(args) is None);
    assert(contains(
        major_lines(uppercase(base), rates, 10),
        rate_line(uppercase(base), shown_unasked()[i], Some(rate)),
    ));
}

proof fn major_line_is_there(base: Seq<char>, rates: JsonView, n: nat, i: int, rate: JsonView)
    requires
        0 <= i < n <= 10,
        super::tools::major_currencies()[i] != base,
        rates.get(super::tools::major_currencies()[i]) == Some(rate),
    ensures
        contains(
            major_lines(base, rates, n),
            rate_line(base, super::tools::major_currencies()[i], Some(rate)),
        ),
    decreases n,
{
    broadcast use group_contained;

    if i < n - 1 {
        major_line_is_there(base, rates, (n - 1) as nat, i, rate);
    }
}

/// The first five coins that a search finds are reported, each with its own name, symbol,
/// identifier and rank.
pub proof fn found_coins_are_reported(
    args: JsonView,
    query: Seq<char>,
    resp: JsonView,
    coins: Seq<JsonView>,
    i: int,
)
    requires
        args.at("query"@) == JsonView::Text(query),
        resp.at("coins"@) == JsonView::List(coins),
        0 <= i < coins.len(),
        i < 5,
    ensures
        after_reply(Tool::CryptoSearch, args, ReplyView::Json(resp), None) matches StepView::Done(
            report,
        ) && {
            &&& contains(report, "**Search results for '"@ + query)
            &&& contains(
                report,
                "  "@ + coins[i].at("name"@).text_or("Unknown"@) + " ("@ + uppercase(
                    coins[i].at("symbol"@).text_or(""@),
                ) + ") - ID: `"@ + coins[i].at("id"@).text_or("unknown"@) + "` - Rank: "@
                    + match coins[i].at("market_cap_rank"@) {
                    JsonView::Natural(rank) => "#"@ + decimal(rank as nat),
                    _ => "unranked"@,
                },
            )
        },
{
    broadcast use group_contained;

    let entries = Seq::new(
        if coins.len() < 5 {
            coins.len()
        } else {
            5
        },
        |k: int| coin_entry(coins[k], symbol_of(coins[k])),
    );
    joined_parts_stand(entries, "\n"@, i);
    assert(entries[i] == coin_entry(coins[i], symbol_of(coins[i])));
    let head = "**Search results for '"@ + query;
    assert(contains(head, head));
}

/// A call reads the address of what it names: the currency in capitals, the coin in small letters,
/// the query as it is, each encoded.
pub proof fn named_things_are_read(args: JsonView, name: Seq<char>)
    ensures
        args.at("base"@) == JsonView::Text(name) ==> (request_for(Tool::ExchangeRates, args) matches
            Ok(r) && r.url == "https://open.er-api.com/v6/latest/"@ + urlencoded(uppercase(name))),
        args.at("coin_id"@) == JsonView::Text(name) ==> (request_for(Tool::CryptoPrice, args) matches
            Ok(r) && ("https://api.coingecko.com/api/v3/coins/"@ + urlencoded(
            lowercase(name),
        )).is_prefix_of(r.url)),
        args.at("query"@) == JsonView::Text(name) ==> (request_for(Tool::CryptoSearch, args) matches
            Ok(r) && r.url == "https://api.coingecko.com/api/v3/search?query="@ + urlencoded(name)),
        args.at("limit"@) matches JsonView::Natural(n) ==> (5 <= n <= 20 ==> (request_for(
            Tool::CryptoMarket,
            args,
        ) matches Ok(r) && contains(
            r.url,
            "https://api.coingecko.com/api/v3/coins/markets?vs_currency=usd&order=market_cap_desc&per_page="@
                + decimal(n as nat),
        ))),
{
    broadcast use group_contained;

    if args.at("coin_id"@) == JsonView::Text(name) {
        let head = "https://api.coingecko.com/api/v3/coins/"@ + urlencoded(lowercase(name));
        let url = request_for(Tool::CryptoPrice, args)->Ok_0.url;
        assert(head =~= url.take(head.len() as int));
    }
}

// ─── Calls ──────────────────────────────────────────────────────────────────

proof fn names_differ()
    ensures
        "crypto_price"@ != "exchange_rates"@,
        "crypto_search"@ != "exchange_rates"@,
        "crypto_search"@ != "crypto_price"@,
        "crypto_market"@ != "exchange_rates"@,
        "crypto_market"@ != "crypto_price"@,
        "crypto_market"@ != "crypto_search"@,
{
    reveal_strlit("exchange_rates");
    reveal_strlit("crypto_price");
    reveal_strlit("crypto_search");
    reveal_strlit("crypto_market");
    assert("crypto_price"@.len() != "exchange_rates"@.len());
    assert("crypto_search"@.len() != "exchange_rates"@.len());
    assert("crypto_search"@.len() != "crypto_price"@.len());
    assert("crypto_market"@.len() != "exchange_rates"@.len());
    assert("crypto_market"@.len() != "crypto_price"@.len());
    assert("crypto_market"@[7] != "crypto_search"@[7]);
}

/// Whether a call by `name` does the work of `tool`: it fetches what the tool reads, and goes on as
/// the tool does after the first reply.
pub open spec fn does_the_work_of(
    name: Seq<char>,
    tool: Tool,
    args: JsonView,
    reply: ReplyView,
    figures: Option<Seq<Option<Seq<char>>>>,
) -> bool {
    let asked = dispatched(name, Ok(args), Seq::empty(), None);
    let told = dispatched(name, Ok(args), seq![reply], figures);
    match request_for(tool, args) {
        Err(e) => asked == StepView::Done("Error: "@ + e) && told == asked,
        Ok(r) => asked == StepView::Fetch(r) && told == after_reply(tool, args, reply, figures),
    }
}

/// Each tool does its own work where it is called by its name.
pub proof fn tools_are_called_by_name(
    args: JsonView,
    reply: ReplyView,
    figures: Option<Seq<Option<Seq<char>>>>,
)
    ensures
        does_the_work_of("exchange_rates"@, Tool::ExchangeRates, args, reply, figures),
        does_the_work_of("crypto_price"@, Tool::CryptoPrice, args, reply, figures),
        does_the_work_of("crypto_search"@, Tool::CryptoSearch, args, reply, figures),
        does_the_work_of("crypto_market"@, Tool::CryptoMarket, args, reply, figures),
{
    names_differ();
    assert(seq![reply][0] == reply);
}

/// Arguments that cannot be read are told of, but for those of the market, which needs none; a tool
/// that is not known is told of.
pub proof fn unusable_call_is_explained(name: Seq<char>, e: Seq<char>, replies: Seq<ReplyView>)
    requires
        name != "exchange_rates"@,
        name != "crypto_price"@,
        name != "crypto_search"@,
        name != "crypto_market"@,
    ensures
        forall|args: Result<JsonView, Seq<char>>| #[trigger]
            dispatched(name, args, replies, None) == StepView::Done(
                "Error: "@ + ("Unknown tool: "@ + name),
            ),
        dispatched("exchange_rates"@, Err(e), replies, None) == StepView::Done("Error: "@ + e),
        dispatched("crypto_price"@, Err(e), replies, None) == StepView::Done("Error: "@ + e),
        dispatched("crypto_search"@, Err(e), replies, None) == StepView::Done("Error: "@ + e),
        dispatched("crypto_market"@, Err(e), replies, None) == dispatched(
            "crypto_market"@,
            Ok(JsonView::Null),
            replies,
            None,
        ),
{
    names_differ();
}

/// The services that ask for it are told who is calling, and each answer is read as what its tool
/// makes use of.
pub proof fn services_are_asked_properly(tool: Tool, args: JsonView)
    requires
        request_for(tool, args) is Ok,
    ensures
        request_for(tool, args)->Ok_0.user_agent == Some("nasiko-finance-agent/1.0"@),
        request_for(tool, args)->Ok_0.expect == Expect::Json,
{
}

// ─── Empty and unusable answers ─────────────────────────────────────────────

/// Where nothing is found, what was searched for is named; an answer of another shape is an error,
/// and an error of the service is told.
pub proof fn nothing_found_is_told(args: JsonView, query: Seq<char>, resp: JsonView, e: Seq<char>)
    ensures
        args.at("query"@) == JsonView::Text(query) && resp.at("coins"@) == JsonView::List(
            Seq::empty(),
        ) ==> after_reply(Tool::CryptoSearch, args, ReplyView::Json(resp), None) == StepView::Done(
            "No cryptocurrencies found for '"@ + query + "'."@,
        ),
        args.at("query"@) is Text && resp.at("coins"@) !is List ==> after_reply(
            Tool::CryptoSearch,
            args,
            ReplyView::Json(resp),
            None,
        ) == StepView::Done("Error: "@ + "no results"@),
        args.at("coin_id"@) is Text && resp.at("error"@) == JsonView::Text(e) ==> after_reply(
            Tool::CryptoPrice,
            args,
            ReplyView::Json(resp),
            None,
        ) == StepView::Done("Error: "@ + ("CoinGecko error: "@ + e)),
        resp !is List ==> after_reply(Tool::CryptoMarket, args, ReplyView::Json(resp), None)
            == StepView::Done("Error: "@ + "unexpected response format"@),
        args.at("base"@) is Text && resp.at("result"@) != JsonView::Text("success"@) ==> after_reply(
            Tool::ExchangeRates,
            args,
            ReplyView::Json(resp),
            None,
        ) == StepView::Done(
            "Error: "@ + ("API error: "@ + resp.at("error-type"@).text_or("unknown error"@)),
        ),
        args.at("base"@) is Text && resp.at("result"@) == JsonView::Text("success"@) && resp.at(
            "rates"@,
        ) !is Object ==> after_reply(Tool::ExchangeRates, args, ReplyView::Json(resp), None)
            == StepView::Done("Error: "@ + "missing rates in response"@),
{
    assert(Seq::<JsonView>::empty().len() == 0);
}

/// A market without coins is told of as such, and a figure that cannot be written stands as such.
pub proof fn missing_figure_is_marked(args: JsonView, figures: Seq<Option<Seq<char>>>, i: int)
    ensures
        after_reply(
            Tool::CryptoMarket,
            args,
            ReplyView::Json(JsonView::List(Seq::empty())),
            Some(figures),
        ) == StepView::Done("No market data available."@),
        0 <= i < figures.len() && figures[i] is None ==> figure_at(figures, i) == "N/A"@,
        0 <= i < figures.len() ==> (figures[i] matches Some(s) ==> figure_at(figures, i) == s),
{
    assert(Seq::<JsonView>::empty().len() == 0);
}

/// The record of a coin is asked for without what no report shows.
pub proof fn record_of_a_coin_is_asked_for(args: JsonView, coin: Seq<char>)
    requires
        args.at("coin_id"@) == JsonView::Text(coin),
    ensures
        request_for(Tool::CryptoPrice, args) matches Ok(r) && r.url
            == "https://api.coingecko.com/api/v3/coins/"@ + urlencoded(lowercase(coin))
            + "?localization=false&tickers=false&community_data=false&developer_data=false"@,
{
}

} // verus!

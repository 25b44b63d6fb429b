# nasiko_agents

Agents that answer questions with the help of a language model and tools, as a verified library
and a thin program around it.

| Module | What it holds |
|--------|---------------|
| `text`, `json` | Text and JSON building blocks; JSON text is read by `serde_json` |
| `http`, `web`, `schema` | Requests and replies of lookup tools, web search pages, tool descriptions |
| `agent` | The talk with a model: turns, tool calls, previews, events, cards, and its laws |
| `coding` | Coding agent: sandbox paths and output, edits, shell quoting, test commands, tools |
| `docs`, `legal`, `paper`, `finance`, `devops` | Lookup tools: which address is read, what is reported |
| `infra` | Infrastructure manager: reception and decoding of a streamed completion, rounds of tool calls |
| `repo_watch` | GitHub surveys, digests, Slack posting, schedule |
| `telemetry` | What is recorded on spans, and which trace a request belongs to |

`src/` is checked by Verus: every function has a contract, and what holds across functions is stated
in public proof functions beside them. Calls into other crates and into parts of the standard
library that Verus does not know stand behind small trusted functions: `json/serde.rs`,
`text/mod.rs`, `text/case.rs`, `telemetry.rs`, `repo_watch/prompt.rs` and `repo_watch/schedule.rs`.

`app/` is the program: network, files, processes, clocks and numbers in floating point.

```sh
nasiko_agents coding        # WORKSPACE_DIR, SANDBOX_MODE; PORT, default 8080
nasiko_agents docs          # PORT, default 8000, as for the two below
nasiko_agents infra
nasiko_agents repo-watch    # GITHUB_REPO, GITHUB_TOKEN, SLACK_BOT_TOKEN, SLACK_CHANNEL_ID
nasiko_agents call finance exchange_rates '{"base":"eur"}'
```

`OPENAI_API_KEY`, `OPENAI_BASE_URL` and `OPENAI_MODEL` choose the model.

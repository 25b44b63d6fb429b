use nasiko_agents::json::notation::compact;
use nasiko_agents::json::Json;
use nasiko_agents::{coding, devops, docs, finance, legal, paper};

/// Holds what is advertised against the descriptions given, member by member.
fn check(advertised: Vec<Json>, expected: &[&str]) {
    assert_eq!(advertised.len(), expected.len());
    for (tool, text) in advertised.iter().zip(expected) {
        let shown: serde_json::Value = serde_json::from_str(&compact(tool)).unwrap();
        let wanted: serde_json::Value = serde_json::from_str(text).unwrap();
        assert_eq!(shown, wanted);
    }
}

#[test]
fn coding_tools_are_described() {
    check(
        coding::tools::definitions(),
        &[
            r##"{
              "type": "function",
              "function": {
                "name": "read_file",
                "description": "Read a file from the workspace. Returns content with 1-based line numbers. Read before editing.",
                "parameters": {
                  "type": "object",
                  "properties": {
                    "path": {
                      "type": "string",
                      "description": "Path relative to the workspace root"
                    },
                    "start_line": {
                      "type": "integer",
                      "description": "Optional 1-based first line to return"
                    },
                    "end_line": {
                      "type": "integer",
                      "description": "Optional 1-based last line to return (inclusive)"
                    }
                  },
                  "required": [
                    "path"
                  ]
                }
              }
            }"##,
            r##"{
              "type": "function",
              "function": {
                "name": "list_directory",
                "description": "List files/directories under a workspace path (recursive). Skips .git, target, node_modules.",
                "parameters": {
                  "type": "object",
                  "properties": {
                    "path": {
                      "type": "string",
                      "description": "Path relative to the workspace root",
                      "default": "."
                    },
                    "depth": {
                      "type": "integer",
                      "description": "Max recursion depth (omit for unbounded)"
                    }
                  }
                }
              }
            }"##,
            r##"{
              "type": "function",
              "function": {
                "name": "search_code",
                "description": "Search the workspace for a pattern (uses ripgrep if available). Returns file:line: match lines.",
                "parameters": {
                  "type": "object",
                  "properties": {
                    "pattern": {
                      "type": "string",
                      "description": "Regex or literal text to search for"
                    },
                    "path": {
                      "type": "string",
                      "description": "Subdirectory to limit the search to",
                      "default": "."
                    },
                    "glob": {
                      "type": "string",
                      "description": "Optional file glob filter, e.g. '*.rs'"
                    }
                  },
                  "required": [
                    "pattern"
                  ]
                }
              }
            }"##,
            r##"{
              "type": "function",
              "function": {
                "name": "write_file",
                "description": "Create or overwrite a file with the given content. Use edit_file for targeted changes to existing files.",
                "parameters": {
                  "type": "object",
                  "properties": {
                    "path": {
                      "type": "string",
                      "description": "Path relative to the workspace root"
                    },
                    "content": {
                      "type": "string",
                      "description": "Full file content"
                    }
                  },
                  "required": [
                    "path",
                    "content"
                  ]
                }
              }
            }"##,
            r##"{
              "type": "function",
              "function": {
                "name": "edit_file",
                "description": "Make a targeted edit using search/replace. The `search` block must appear EXACTLY ONCE in the file; it is replaced with `replace`. Provide multiple {search,replace} objects in `edits` to apply several edits in one call (applied in order).",
                "parameters": {
                  "type": "object",
                  "properties": {
                    "path": {
                      "type": "string",
                      "description": "Path relative to the workspace root"
                    },
                    "search": {
                      "type": "string",
                      "description": "Exact text to find (must be unique). Omit if using `edits`."
                    },
                    "replace": {
                      "type": "string",
                      "description": "Replacement text. Omit if using `edits`."
                    },
                    "edits": {
                      "type": "array",
                      "description": "Multiple edits applied in order",
                      "items": {
                        "type": "object",
                        "properties": {
                          "search": {
                            "type": "string"
                          },
                          "replace": {
                            "type": "string"
                          }
                        },
                        "required": [
                          "search",
                          "replace"
                        ]
                      }
                    }
                  },
                  "required": [
                    "path"
                  ]
                }
              }
            }"##,
            r##"{
              "type": "function",
              "function": {
                "name": "run_command",
                "description": "Run a shell command in the workspace root (build, lint, format, etc.). Returns stdout, stderr, and exit code.",
                "parameters": {
                  "type": "object",
                  "properties": {
                    "command": {
                      "type": "string",
                      "description": "Shell command to run via `sh -c`"
                    },
                    "timeout_s": {
                      "type": "integer",
                      "description": "Optional wall-clock timeout in seconds"
                    }
                  },
                  "required": [
                    "command"
                  ]
                }
              }
            }"##,
            r##"{
              "type": "function",
              "function": {
                "name": "run_tests",
                "description": "Run the project's test suite. Auto-detects the command (cargo test / npm test / pytest / go test) unless `command` is given.",
                "parameters": {
                  "type": "object",
                  "properties": {
                    "command": {
                      "type": "string",
                      "description": "Optional explicit test command override"
                    },
                    "timeout_s": {
                      "type": "integer",
                      "description": "Optional wall-clock timeout in seconds"
                    }
                  }
                }
              }
            }"##,
        ],
    );
}

#[test]
fn docs_tools_are_described() {
    check(
        docs::tools::definitions(),
        &[
            r##"{
              "type": "function",
              "function": {
                "name": "crates_io",
                "description": "Search crates.io for Rust crates. Returns name, version, description, and documentation links. Use when the user asks about Rust libraries.",
                "parameters": {
                  "type": "object",
                  "properties": {
                    "query": {
                      "type": "string",
                      "description": "Crate name or search query"
                    },
                    "sort": {
                      "type": "string",
                      "enum": [
                        "downloads",
                        "relevance",
                        "recent-downloads"
                      ],
                      "description": "Sort order for results (default: downloads)"
                    }
                  },
                  "required": [
                    "query"
                  ]
                }
              }
            }"##,
            r##"{
              "type": "function",
              "function": {
                "name": "crate_info",
                "description": "Get detailed info about a specific Rust crate: version history, features, dependencies, and docs.rs link.",
                "parameters": {
                  "type": "object",
                  "properties": {
                    "name": {
                      "type": "string",
                      "description": "Exact crate name"
                    },
                    "version": {
                      "type": "string",
                      "description": "Specific version (optional, defaults to latest)"
                    }
                  },
                  "required": [
                    "name"
                  ]
                }
              }
            }"##,
            r##"{
              "type": "function",
              "function": {
                "name": "npm_search",
                "description": "Search npm for JavaScript/TypeScript packages. Returns name, version, description. Use for Node.js/frontend library questions.",
                "parameters": {
                  "type": "object",
                  "properties": {
                    "query": {
                      "type": "string",
                      "description": "Package name or search query"
                    }
                  },
                  "required": [
                    "query"
                  ]
                }
              }
            }"##,
            r##"{
              "type": "function",
              "function": {
                "name": "npm_package",
                "description": "Get detailed info about a specific npm package: versions, dependencies, repository, and README excerpt.",
                "parameters": {
                  "type": "object",
                  "properties": {
                    "name": {
                      "type": "string",
                      "description": "Exact package name (e.g. 'zod', '@tanstack/react-query')"
                    },
                    "version": {
                      "type": "string",
                      "description": "Specific version (optional, defaults to latest)"
                    }
                  },
                  "required": [
                    "name"
                  ]
                }
              }
            }"##,
            r##"{
              "type": "function",
              "function": {
                "name": "pypi_package",
                "description": "Get info about a Python package from PyPI: version, description, dependencies, and project links.",
                "parameters": {
                  "type": "object",
                  "properties": {
                    "name": {
                      "type": "string",
                      "description": "Package name (e.g. 'fastapi', 'pydantic')"
                    }
                  },
                  "required": [
                    "name"
                  ]
                }
              }
            }"##,
            r##"{
              "type": "function",
              "function": {
                "name": "github_readme",
                "description": "Fetch the README of a GitHub repository. Use for understanding how to use a library when registry docs aren't enough.",
                "parameters": {
                  "type": "object",
                  "properties": {
                    "repo": {
                      "type": "string",
                      "description": "Repository in 'owner/repo' format (e.g. 'tokio-rs/tokio')"
                    }
                  },
                  "required": [
                    "repo"
                  ]
                }
              }
            }"##,
            r##"{
              "type": "function",
              "function": {
                "name": "web_search",
                "description": "Search the web for information. Use when you need to find documentation, blog posts, comparisons, or any information not available through package registries. Good for 'latest', 'best', 'comparison' queries.",
                "parameters": {
                  "type": "object",
                  "properties": {
                    "query": {
                      "type": "string",
                      "description": "Search query"
                    }
                  },
                  "required": [
                    "query"
                  ]
                }
              }
            }"##,
        ],
    );
}

#[test]
fn legal_tools_are_described() {
    check(
        legal::tools::definitions(),
        &[
            r##"{
              "type": "function",
              "function": {
                "name": "sec_filing_search",
                "description": "Full-text search of SEC EDGAR filings. Search for keywords across all SEC filings including 10-K, 10-Q, 8-K, and more. Useful for finding disclosures, risk factors, financial statements, and regulatory filings.",
                "parameters": {
                  "type": "object",
                  "properties": {
                    "query": {
                      "type": "string",
                      "description": "Search query for full-text search across SEC filings"
                    },
                    "form_type": {
                      "type": "string",
                      "description": "Filter by form type (e.g. '10-K', '10-Q', '8-K', 'S-1', 'DEF 14A')"
                    },
                    "start_date": {
                      "type": "string",
                      "description": "Start date filter in YYYY-MM-DD format"
                    },
                    "end_date": {
                      "type": "string",
                      "description": "End date filter in YYYY-MM-DD format"
                    }
                  },
                  "required": [
                    "query"
                  ]
                }
              }
            }"##,
            r##"{
              "type": "function",
              "function": {
                "name": "sec_company_filings",
                "description": "Get recent SEC filings for a specific company by CIK number. Returns the company's most recent filings including form type, date, and description. CIK numbers can be found on the SEC EDGAR website.",
                "parameters": {
                  "type": "object",
                  "properties": {
                    "cik": {
                      "type": "string",
                      "description": "Company CIK number (will be zero-padded to 10 digits automatically)"
                    }
                  },
                  "required": [
                    "cik"
                  ]
                }
              }
            }"##,
            r##"{
              "type": "function",
              "function": {
                "name": "sec_company_search",
                "description": "Look up a public company's SEC CIK number by name or ticker. Use this before sec_company_filings, which requires a CIK rather than a company name.",
                "parameters": {
                  "type": "object",
                  "properties": {
                    "name": {
                      "type": "string",
                      "description": "Company name or ticker symbol to search for (e.g. 'Apple', 'AAPL')"
                    }
                  },
                  "required": [
                    "name"
                  ]
                }
              }
            }"##,
            r##"{
              "type": "function",
              "function": {
                "name": "federal_register",
                "description": "Search the U.S. Federal Register for regulations, proposed rules, notices, and presidential documents. The Federal Register is the official daily publication for rules, proposed rules, and notices of federal agencies.",
                "parameters": {
                  "type": "object",
                  "properties": {
                    "query": {
                      "type": "string",
                      "description": "Search query for Federal Register documents"
                    },
                    "document_type": {
                      "type": "string",
                      "enum": [
                        "RULE",
                        "PRRULE",
                        "NOTICE",
                        "PRESDOCU"
                      ],
                      "description": "Filter by document type: RULE (final rules), PRRULE (proposed rules), NOTICE (notices), PRESDOCU (presidential documents)"
                    }
                  },
                  "required": [
                    "query"
                  ]
                }
              }
            }"##,
            r##"{
              "type": "function",
              "function": {
                "name": "case_law_search",
                "description": "Search for court opinions and case law via CourtListener. Find judicial opinions from federal and state courts including the Supreme Court, Circuit Courts, and District Courts.",
                "parameters": {
                  "type": "object",
                  "properties": {
                    "query": {
                      "type": "string",
                      "description": "Search query for case law (supports natural language and legal citations)"
                    },
                    "court": {
                      "type": "string",
                      "description": "Filter by court identifier (e.g. 'scotus' for Supreme Court, 'ca1'-'ca11' for Circuit Courts)"
                    }
                  },
                  "required": [
                    "query"
                  ]
                }
              }
            }"##,
        ],
    );
}

#[test]
fn paper_tools_are_described() {
    check(
        paper::tools::definitions(),
        &[
            r##"{
              "type": "function",
              "function": {
                "name": "arxiv_search",
                "description": "Search arXiv for academic papers. Returns titles, authors, abstracts, and links. Use for finding research papers on any scientific or technical topic.",
                "parameters": {
                  "type": "object",
                  "properties": {
                    "query": {
                      "type": "string",
                      "description": "Search query (supports arXiv query syntax: ti:, au:, abs:, cat:)"
                    },
                    "max_results": {
                      "type": "integer",
                      "description": "Number of results to return (1-10)",
                      "default": 5
                    },
                    "sort_by": {
                      "type": "string",
                      "enum": [
                        "relevance",
                        "lastUpdatedDate",
                        "submittedDate"
                      ],
                      "default": "relevance"
                    }
                  },
                  "required": [
                    "query"
                  ]
                }
              }
            }"##,
            r##"{
              "type": "function",
              "function": {
                "name": "semantic_scholar",
                "description": "Search Semantic Scholar for papers with citation counts, influential citations, and related work. Better for finding highly-cited or influential papers.",
                "parameters": {
                  "type": "object",
                  "properties": {
                    "query": {
                      "type": "string",
                      "description": "Search query for papers"
                    },
                    "year": {
                      "type": "string",
                      "description": "Filter by year or range (e.g. '2024' or '2022-2024')"
                    },
                    "limit": {
                      "type": "integer",
                      "description": "Number of results (1-10)",
                      "default": 5
                    }
                  },
                  "required": [
                    "query"
                  ]
                }
              }
            }"##,
            r##"{
              "type": "function",
              "function": {
                "name": "semantic_scholar_paper",
                "description": "Get detailed info about a specific paper by its Semantic Scholar ID, arXiv ID, or DOI. Returns abstract, citations, references, and TL;DR.",
                "parameters": {
                  "type": "object",
                  "properties": {
                    "paper_id": {
                      "type": "string",
                      "description": "Paper identifier: Semantic Scholar ID, 'arXiv:2301.00001', or 'DOI:10.xxx/yyy'"
                    }
                  },
                  "required": [
                    "paper_id"
                  ]
                }
              }
            }"##,
            r##"{
              "type": "function",
              "function": {
                "name": "wikipedia_summary",
                "description": "Get a Wikipedia summary for a topic. Useful for providing context, definitions, or background on concepts mentioned in papers.",
                "parameters": {
                  "type": "object",
                  "properties": {
                    "topic": {
                      "type": "string",
                      "description": "Topic to look up"
                    }
                  },
                  "required": [
                    "topic"
                  ]
                }
              }
            }"##,
        ],
    );
}

#[test]
fn finance_tools_are_described() {
    check(
        finance::tools::definitions(),
        &[
            r##"{
              "type": "function",
              "function": {
                "name": "exchange_rates",
                "description": "Get current exchange rates for a base currency. Returns conversion rates against other currencies.",
                "parameters": {
                  "type": "object",
                  "properties": {
                    "base": {
                      "type": "string",
                      "description": "Base currency code (e.g. \"USD\", \"EUR\", \"GBP\")"
                    },
                    "targets": {
                      "type": "array",
                      "items": {
                        "type": "string"
                      },
                      "description": "Optional list of target currency codes (e.g. [\"EUR\", \"GBP\"]). If omitted, returns top 10 rates."
                    }
                  },
                  "required": [
                    "base"
                  ]
                }
              }
            }"##,
            r##"{
              "type": "function",
              "function": {
                "name": "crypto_price",
                "description": "Get current price and market data for a cryptocurrency. Use the CoinGecko coin ID (e.g. \"bitcoin\", \"ethereum\", \"solana\").",
                "parameters": {
                  "type": "object",
                  "properties": {
                    "coin_id": {
                      "type": "string",
                      "description": "CoinGecko coin ID (e.g. \"bitcoin\", \"ethereum\", \"cardano\")"
                    }
                  },
                  "required": [
                    "coin_id"
                  ]
                }
              }
            }"##,
            r##"{
              "type": "function",
              "function": {
                "name": "crypto_search",
                "description": "Search for a cryptocurrency by name or symbol. Useful when you don't know the exact CoinGecko ID for a coin.",
                "parameters": {
                  "type": "object",
                  "properties": {
                    "query": {
                      "type": "string",
                      "description": "Search query (name or symbol, e.g. \"bitcoin\" or \"BTC\")"
                    }
                  },
                  "required": [
                    "query"
                  ]
                }
              }
            }"##,
            r##"{
              "type": "function",
              "function": {
                "name": "crypto_market",
                "description": "Get top cryptocurrencies ranked by market cap. Returns prices, 24h changes, and market caps.",
                "parameters": {
                  "type": "object",
                  "properties": {
                    "limit": {
                      "type": "integer",
                      "description": "Number of results (5-20)",
                      "default": 10
                    }
                  }
                }
              }
            }"##,
        ],
    );
}

#[test]
fn devops_tools_are_described() {
    check(
        devops::tools::definitions(),
        &[
            r##"{
              "type": "function",
              "function": {
                "name": "github_repo_info",
                "description": "Get info about a GitHub repository including stars, forks, open issues, language, and description.",
                "parameters": {
                  "type": "object",
                  "properties": {
                    "owner": {
                      "type": "string",
                      "description": "Repository owner (user or organization)"
                    },
                    "repo": {
                      "type": "string",
                      "description": "Repository name"
                    }
                  },
                  "required": [
                    "owner",
                    "repo"
                  ]
                }
              }
            }"##,
            r##"{
              "type": "function",
              "function": {
                "name": "github_actions_runs",
                "description": "List recent CI/CD workflow runs for a GitHub repository. Shows workflow name, status, conclusion, branch, and trigger event.",
                "parameters": {
                  "type": "object",
                  "properties": {
                    "owner": {
                      "type": "string",
                      "description": "Repository owner (user or organization)"
                    },
                    "repo": {
                      "type": "string",
                      "description": "Repository name"
                    }
                  },
                  "required": [
                    "owner",
                    "repo"
                  ]
                }
              }
            }"##,
            r##"{
              "type": "function",
              "function": {
                "name": "docker_hub_search",
                "description": "Search Docker Hub for container images. Returns image name, description, star count, pull count, and whether it's an official image.",
                "parameters": {
                  "type": "object",
                  "properties": {
                    "query": {
                      "type": "string",
                      "description": "Search query for Docker Hub images"
                    }
                  },
                  "required": [
                    "query"
                  ]
                }
              }
            }"##,
            r##"{
              "type": "function",
              "function": {
                "name": "check_endpoint",
                "description": "Check if an HTTP endpoint is responding and measure its latency. Reports status code, response time, content-type, and health status.",
                "parameters": {
                  "type": "object",
                  "properties": {
                    "url": {
                      "type": "string",
                      "description": "The URL to check (must include scheme, e.g. https://example.com)"
                    }
                  },
                  "required": [
                    "url"
                  ]
                }
              }
            }"##,
            r##"{
              "type": "function",
              "function": {
                "name": "web_search",
                "description": "Search the web for DevOps documentation, tutorials, best practices, or troubleshooting guides. Use when existing tools don't cover the question.",
                "parameters": {
                  "type": "object",
                  "properties": {
                    "query": {
                      "type": "string",
                      "description": "Search query for web results"
                    }
                  },
                  "required": [
                    "query"
                  ]
                }
              }
            }"##,
        ],
    );
}

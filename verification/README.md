# rust-ai-agent

A host-based intrusion-prevention agent: it follows an nginx access log,
screens requests for attack markers, keeps a sliding window of suspicious
events per client IP, asks a local language model for a verdict once a
window fills, and blocks the IP with iptables when the model says BLOCK with
enough confidence.

The library under `src/` is written in Verus and verified:

| Module | Contents |
|--------|----------|
| `text` | trimming, substring search, UTF-8 widths, decimal rendering and parsing over `Seq<char>` |
| `ingestion` | the combined log format (through `regex`), screening, compact summaries |
| `memory` | per-IP windows and User-Agent sets in a `DashMap` |
| `parser` | verdict types, the confidence threshold, framing of the model's answer |
| `model` | the analysis prompt and the bookkeeping of token generation |
| `tools` | whitelist, dry runs and firewall commands |
| `sentinel` | the decisions of the main loop: blocks, their expiry, rate limiting |
| `config`, `cli` | settings and command-line options |
| `bench` | the benchmark cases and the tally of outcomes |

`app/` is the program around it: reading the log, running the model
(`llama_cpp_2`), decoding JSON (`serde_json`), calling iptables, timing and
logging. `app benchmark [model]` runs the benchmark and `app download-model`
fetches the default model.

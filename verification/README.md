# research_lab

A multi-agent research lab: a pipeline of agents (PI, Reader, Critic, Planner,
Statistician, Ethics, Analyst, Postdoc) that share a JSON context, ask a language
model for their parts, record each output in a transcript, and end with a final
HTML/PDF report. The library in `src/` holds the lab's logic and is verified with Verus;
`app/` runs it (command line, HTTP server, language model, web search, files) and
also sets what the library cannot hold or produce: the model's temperature (a
float) and the JSON texts of values (through serde).

- `src/json.rs` – the JSON model and its values; `src/context.rs` – the shared context.
- `src/agents.rs`, `src/nodes.rs` – what each agent asks, decides and records.
- `src/transcript.rs`, `src/claims.rs`, `src/dispatch.rs` – transcript lines and
  events, completion of the Reader's evidence, requests between agents.
- `src/flow.rs` – the pipeline's stages and edges; `src/run.rs`, `src/cli.rs` –
  how runs start and what they print or answer.
- `src/sources.rs` – the list of research sources; `src/llm.rs` – prompts and
  stand-in replies; `src/text.rs` – trimming, numerals, lower-casing, byte search.
- `src/laws.rs` – properties that span several functions.

# rig_tool

Tools that a language model can call, and sets of them, with contracts that Verus proves.

A tool set holds tools by name. A call looks the tool up, hands it its arguments as JSON text and
hands back what it returned: text, or for a tool of an MCP server the server's whole answer. A set
can also list the definitions of its tools, make documents about them, and give the schemas under
which they are embedded.

- `src/` is the library. It awaits nothing: its functions say what is to be awaited and what
  follows from what came back. `src/laws.rs` states what holds of the library as a whole.
- `app/` awaits. It has the asynchronous traits that users implement, the client of an MCP server,
  and the types that are read and written with serde.
- `tests/` runs the library on concrete values.

What the library takes on trust is in `src/json.rs` and at the top of `src/model.rs`: a few calls
into `serde_json`, and that cloning a value of `serde_json` or `rmcp` gives the same value.

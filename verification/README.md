# chat_agent

A command-line assistant that answers questions with a language model
(through the Responses API) and lets the model call tools: a local
documentation search and the tools of an MCP server.

- `src/` is the verified core, written in Verus: the conversation history,
  the text of each answer, the tools offered to the model under the names
  `provider__tool`, the routing of the model's calls back to their provider
  and tool, and the request loop as a state machine (`Agent::ask_one`,
  `receive_response`, `tools_executed`) that tells its caller what to do next.
- `app/` is the program around it: command line, the API client, the MCP
  client, running the tools, and printing.
- `tests/` exercises the library on concrete values.

# sctr

The command-line contract of SCTR, a policy-controlled lifecycle client for
tenant applications, as a Verus library: the command tree, the routing of a
command line to help text or to an actionable refusal, and the rendering of
the operational help.

- `src/tree.rs`: the command tree, its help metadata and lookups by name.
- `src/help.rs`: the root briefing and the briefing of one command.
- `src/dispatch.rs`: routing of a command line and its errors.
- `src/run.rs`: one run, from arguments to exit status, stdout and stderr.
- `src/laws.rs`: properties of the router as a whole.
- `src/text.rs`: joining, padding and comparing text.
- `app/main.rs`: the executable that reads the process arguments and writes the streams.

# mochify

A command-line client and tool server for the mochify.app image and PDF
processing service, whose request planning is verified with Verus.

## Layout

- `src/` — the verified library: everything the client decides before and
  after a request.
  - `pdf.rs`, `params.rs`, `query.rs`: PDF operations and their options,
    image parameters, merging of prompt answers with explicit flags, and the
    query strings each request sends.
  - `prompt.rs`, `plan.rs`: expanding a prompt's answer into size × format
    variants, and the per-file job plan of a batch.
  - `cli.rs`, `modes.rs`, `tools.rs`: checking command-line flags and tool
    arguments, routing inputs to the image or PDF path.
  - `naming.rs`: output names, directories, extensions and content types, as
    functions of the input path.
  - `batch.rs`: reporting concurrent jobs in submission order.
  - `meta.rs`, `auth.rs`, `error.rs`: what is printed about results, usage
    and sign-in, and the error texts.
  - `text.rs`: string helpers, and the few std string operations the library
    trusts by contract.
  - `laws.rs`: properties that relate several operations.
- `app/` — the executable: argument parsing, HTTP, files, the terminal and
  the tool-server transport. It asks the disk whether a name is taken and
  whether two directories are the same one; the library decides what to do
  with each answer, and every name, query and message.
- `tests/` — tests of the library on concrete values.

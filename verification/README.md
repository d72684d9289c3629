# hyperv_tools

Tools that manage Hyper-V hosts by running PowerShell cmdlets through a
sidecar process. Each tool checks its request, builds one PowerShell script,
and reads the JSON that the script prints.

## Layout

- `src/` is the library, written in Verus and verified:
  - `text.rs`: white space, trimming, ASCII case folding, PowerShell
    single-quote escaping and decimal rendering, with their laws (a text is
    blank exactly when it trims to nothing; an escaped value reads back as
    itself and every ASCII apostrophe in it is doubled, while typographic
    quotes are left as they are; a rendered number reads back as itself).
  - `command.rs`: a command line built one argument at a time, with a
    specification for each argument form.
  - `json.rs`: JSON values as plain data, the parse of the printed text
    through `serde_json` (blank text reads as an empty list), the field
    readers the tools use, and the decoding of a printed list of records.
  - `error.rs`: the tool error.
  - `tools/`: one module per tool. `input_problem` states which check a
    request fails first, `script` the script a valid request runs;
    `build_script` is proved to return exactly one or the other, and
    `parse_output` to read every printed record field by field;
    `read_output` takes the printed text through the parse to the answer.
- `app/` is ordinary Rust around the library: the request and answer types
  with their `serde` and `schemars` derives, each tool's async `run`, which
  sends the script to the sidecar and hands the printed text back to the
  library, and the list of tools with their request schemas.
- `tests/` runs the library on concrete requests and outputs.

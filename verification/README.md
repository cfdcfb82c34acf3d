# local_control

Local control of running Warp app instances, written in Verus.

- `src/` is the verified library: the protocol vocabulary (`protocol`), the action catalog
  (`catalog`), credential issuance and checking (`auth`, `permissions`), discovery records and
  instance selection (`discovery`, `selection`), the app-side request checks and handlers
  (`bridge`, `handlers`, `selectors`, `resolver`), the Scripting settings (`settings`), the
  `warpctrl` command model (`cli_args`, `cli_commands`, `control_commands`, `warpctrl`,
  `client`), and the app pieces around them: the zoom indicator (`zoom`), managed MCP
  resolution (`managed_mcp`, `managed_mcp_client`), scripting grants (`scripting`), the
  agent-resume registry (`agent_resume`), the view context (`view_context`), the notebook
  pane (`notebook`) and the terminal wrapper's event loop (`event_loop`).
- `tests/` exercises the library on concrete values.
- `app/` is the `warpctrl` program: argument parsing, the discovery registry on disk, the
  HTTP transport, JSON forms of the protocol types, and output.

## Notes on the design

- The credential issuer keeps its credentials in a `Vec`, read through `credential_store` as a
  map from token to credential in which a later credential replaces an earlier one with the
  same token. vstd specifies `HashMap` only for key types that obey its key model, and it
  states that for integers and `bool` but not for `String`; a token-keyed `HashMap` would need
  that assumed, which this crate does not do.
- Credentials issued by the bridge's issuer live one minute; those issued through the
  Scripting settings (`permissions::issue_credential`) live thirty seconds.

# damascene_core

The event-handling core of the Damascene widget kit, verified with Verus.

Widgets in the kit are controlled: the app owns their state and folds each
routed `UiEvent` into it through the widget's `apply_event`. Every widget
mints routed keys of the form `{key}:{kind}:{value}` for its parts and reads
them back when an event arrives. This crate holds that logic, with contracts
stated over `Seq<char>` views of the keys and over spec models of each
widget's state:

- `src/key.rs` — routed-key text: prefix/suffix stripping, decimal
  formatting and parsing of indices, text order.
- `src/key_set.rs` — an ordered set of keys (selected and expanded rows).
- `src/event.rs` — the routed event and what counts as an activation.
- `src/widgets/` — one module per widget: key minting, event
  classification, state folds, and the laws that tie them together
  (minted keys classify back to what they were minted for, toggles undo
  themselves, sort headers cycle, and so on).

`app/` holds what Verus does not take: the floating-point parts (slider
values, resize weights, numeric stepping, popover anchoring, meter fill),
which call into the library for every routing decision.

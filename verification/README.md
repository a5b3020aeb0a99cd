# snora

The decisions of the Snora GUI framework, verified with Verus: which
layers an application layout composes into and in which order, which
overlay a key press dismisses, where toasts, sheets, sidebars and
breadcrumbs sit under left-to-right and right-to-left reading, how
transient toasts leave the queue, which stable identifier each drawn
surface carries, and which colour role, token size and shape every prefab
surface is styled with.

- `src/` is the verified library. Styles and geometry are symbolic
  (colour roles, theme tiers, token steps); nothing in it draws.
- `app/` hands the library's decisions to iced: it turns the layer stack
  into widgets, resolves colour roles and token steps against a theme and
  a token bundle, maps iced's keyboard types and clock, and runs the
  toast sweep subscription.
- `tests/` exercises the library on concrete values.

# i3_style

Applies a colour theme to an i3 window manager configuration.

- `src/theme.rs`: the theme (window colours, bar colours) and the keywords of
  the configuration entries it colours.
- `src/text.rs`: Unicode whitespace, indentation, trimming and word splitting.
- `src/format.rs`: the lines that are written for themed entries.
- `src/writer.rs`: the line-by-line state machine (`ConfigWriter`) and
  `render_config`, which applies a theme to a whole configuration.
- `src/laws.rs`: properties proved of every configuration and theme.
- `app/lib.rs`: reading and writing configuration files.

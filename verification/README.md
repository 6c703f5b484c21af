# isdown

Checks whether third-party services are up by reading their public status
feeds, from the terminal:

```
$ isdown check github slack aws https://example.com
```

The library (`src/`) is verified with Verus. It holds:

- `text`: string equality, prefixes, trimming (Unicode white space), the
  normalized key of a target, the `name (status)` text of a cause;
- `json`: the JSON tree a feed sends and the lookups made in it;
- `registry`: the known services, their keys and display names;
- `target`: what a command-line argument names (a service or a web address);
- `check`: outcomes and errors, the feed checks (Statuspage services, GitHub,
  Slack, AWS, any web address) and what a check makes of a fetch's reply;
- `planner`: one check per target, and the gathering of their results;
- `watch`: the decisions of a repeated watch;
- `report`: the width of the name column.

`app/` is the command-line program around it: argument parsing, the HTTP
fetches, JSON parsing, coloured or JSON output, and the watch loop.

# coolify

The decisions behind Coolify's control plane, as functions whose behaviour Verus proves.

- `src/mesh` and `src/cli`: a WireGuard mesh of container hosts. Addresses are allocated,
  hosts are probed, a plan is made of what differs, and each phase of the plan becomes the
  commands that run on each host.
- `src/cooldctl`: the same for meshes with a central host, and the firewall rules on top.
- `src/flux` and `src/token`: the gateway that agents connect to. Tokens are verified, bound
  to their hosts and revoked; commands are routed by capability; requests and agents that
  stay silent are given up.
- `src/scheduler`, `src/model`, `src/storage`, `src/web`: the registry, the records and the
  web API.
- `src/e2e`: what live tests ask of rented machines.

Each module states its contracts over views: texts are sequences of characters, maps are
sequences of entries in order, messages are spelled out. Laws that relate several functions
are public proof functions beside what they speak of.

Calls into other crates stand behind small functions that say what is relied upon; their
results that take pages to state have a name instead. `app/` holds the programs around the
library: arguments, `ssh`, sockets, files and the database. The files of Corrosion are read
from a directory; their places, such as `{{mgmt_ip}}` or `{{version}}`, are filled in for each
node by `src/cli/corrosion.rs`.

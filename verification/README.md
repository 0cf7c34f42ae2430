# cpucaps

Discovers the host CPU capabilities of the nodes of a KubeVirt cluster: a
debugger container in each `virt-handler` pod collects libvirt's documents,
and the program reports, per node, the host CPU model, the supported CPU
features and models, and the models that more than half of the nodes support.

- `src/` is the verified library: the capability computation
  (`cpu_caps`), the libvirt document types (`de::types`), the reading of a
  node's archive (`archive`), the decisions of the debugger workflow (`k8s`)
  and string helpers (`text`).
- `app/` is the command-line program: argument handling, the Kubernetes API
  calls, XML parsing and the YAML report.
- `tests/` exercises the library on concrete values.

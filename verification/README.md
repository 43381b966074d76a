# axvisor_kvm

A KVM ABI backend over the AxVisor virtual machine monitor, and the Linux host
adapter that the monitor runs on, as a verified library.

The library (`src/`) holds the state and the decisions: tables of VMs, vCPUs and
guest pages, timers, boot and run sequences, interrupt routing, consoles, wait
queues, tasks, interrupt handlers, host timers and the loading of the adapter.
Whatever needs the host is a step of a sequence: the step says what the host is
to do, and the host's reply gives the next step. Each function states in its
contract what it does to the tables and what it returns; properties that span
functions stand beside them as public proof functions.

`app/` is the C interface. It carries out the steps with the host's functions and
with a monitor that the embedding installs.

| Modules | What they hold |
| --- | --- |
| `state`, `vm`, `vcpu`, `timers`, `context`, `env` | tables of the backend |
| `boot`, `run`, `progress`, `percpu`, `inkernel`, `irq`, `soft_ple` | sequences of the backend |
| `access`, `arith`, `bytes`, `snapshot`, `config`, `errno`, `text`, `fault` | values |
| `handle_backend` | the backend that keeps state by handle |
| `console`, `emerg`, `wait_queue`, `tasks`, `host_irq`, `passthrough` | the adapter's services |
| `arch`, `core_link`, `runtime`, `percpu_area`, `module` | the adapter's host side |

# tengu_init

Provisions a server with the Tengu PaaS, over SSH or on a new Hetzner VPS.

- `src/` is the library: resolution of the configuration, the decisions of each flow, file steps,
  cloud-init rendering, and what is printed. Verus proves every function against its contract.
- `app/` is the program around it: command line, prompts, files, and the processes it starts. It
  reads the cloud-init template from `templates/cloud-init.yml.tera`.
- `tests/` runs the library with the crates it calls.

The contracts of the calls into `base64`, `hex`, `sha2` and `tera` are trusted; they stand in
`src/encoding.rs` and `src/template.rs`. Two conversions of the standard library are specified in
`src/text.rs`.

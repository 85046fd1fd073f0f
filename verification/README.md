# image_sync_operator

A Kubernetes operator that copies container images from one registry to
another, once or on a schedule, as described by `ImageSync` custom
resources. Each sync runs skopeo in a Job or a CronJob.

- `src/` is the verified library (Verus): the ImageSync model, the rendering
  of the skopeo Job and CronJob, the comparison of a CronJob found in the
  cluster with the expected one, the acceptance checks, the status updates,
  and the reconcile pass as a state machine (`controller.rs`) whose
  transitions and laws are proved.
- `app/` is the operator binary: configuration file, Kubernetes API calls,
  leader election, and the loop that performs the state machine's actions.
  `image-sync-operator crd` prints the CustomResourceDefinition.
- `tests/` runs the library on concrete values.

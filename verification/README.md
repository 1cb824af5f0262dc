# aybara

Rootless containers for building packages. A container is started in fresh
user, PID, mount, cgroup, UTS, time and network namespaces; inside, the
invoking user is mapped to root, the loopback interface is brought up, a
clone of the image at `/var/tmp/container-image` becomes the root with fresh
`proc`, `sysfs`, `devpts`, `cgroup2` and `tmpfs` mounts and the device files
a build needs, and a shell runs.

## Layout

- `src/` is the library, verified with Verus: the arguments of every system
  call (clone flags, descriptor ranges, NUL-terminated paths, `*at` path
  arguments, the flags of the new mount API, netlink results), the identity
  maps, the plan of mounts below the new root and the order of the setup.
  Each function states its result exactly; the proof functions state the
  laws that hold across calls (namespace requests add exactly one namespace
  and commute, every fresh filesystem is `nosuid` and close-on-exec, decimal
  ID maps read back, mounts are moved onto a descriptor exactly when the
  target names one).
- `app/` is the program: it declares the C library, kernel and libnl entry
  points, runs the system calls with the arguments the library prepares and
  drives the setup.
- `tests/` runs the library on concrete values.

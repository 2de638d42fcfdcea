use vstd::prelude::*;

verus! {

/// The client executable.
pub const CHEF_PATH: &'static str = "/opt/chef/embedded/bin/chef-client";

/// The directory the client is installed in.
pub const CHEF_INSTALL_DIR: &'static str = "/opt/chef";

/// The supervisor's own configuration file.
pub const CONFIG_FILE_PATH: &'static str = "/etc/chefctl.yml";

/// The lock file handed to the client.
pub const LOCK_FILE_PATH: &'static str = "/var/lock/subsys/chefctl";

/// The stable link to the output of the run in progress.
pub const CHEF_RUN_CURRENT_PATH: &'static str = "/tmp/chef.cur.out";

/// The stable link to the output of the run before it.
pub const CHEF_RUN_LAST_PATH: &'static str = "/tmp/chef.last.out";

/// The directory that holds the timestamped run logs.
pub const CHEF_RUN_LOG_DIR: &'static str = "/tmp/";

/// The null device.
pub const FD_NULL: &'static str = "/dev/null";

} // verus!

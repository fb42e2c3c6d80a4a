use epoch_get::{help_text, version_text, ClockError, Verbosity};

#[test]
fn colours_follow_the_switch() {
    colored::control::set_override(true);
    assert_eq!(version_text(Verbosity::Verbose), "\x1b[32mepoch-get \x1b[0m0.1.0\n");
    assert_eq!(version_text(Verbosity::Quiet), "0.1.0\n");
    assert_eq!(
        ClockError::BeforeEpoch.message(),
        "\x1b[1;31mError:\x1b[0m Unable to get system time!"
    );
    assert!(help_text().contains("\x1b[33mUSAGE:\x1b[0m"));
    assert!(help_text().contains("\x1b[32m-m, -ms, --milliseconds\x1b[0m"));
    colored::control::set_override(false);
    assert_eq!(version_text(Verbosity::Verbose), "epoch-get 0.1.0\n");
    assert_eq!(ClockError::BeforeEpoch.message(), "Error: Unable to get system time!");
    let expected = [
        "epoch-get 0.1.0\n",
        "\n",
        "USAGE:\n",
        "    epoch-get [OPTIONS]\n",
        "\n",
        "OPTIONS:\n",
        "    -h, --help\n",
        "            Print this help menu.\n",
        "\n",
        "    -V, --version\n",
        "            Print the program version.\n",
        "\n",
        "    -v, --verbose\n",
        "            Be verbose when printing the time.\n",
        "            Can be combined with any of the following arguments:\n",
        "\n",
        "    -s, --seconds - default\n",
        "            Print the value in seconds.\n",
        "\n",
        "    -m, -ms, --milliseconds\n",
        "            Print the value in milliseconds.\n",
        "\n",
        "    -u, -us, --microseconds\n",
        "            Print the value in microseconds.\n",
        "\n",
        "    -n, -ns, --nanoseconds\n",
        "            Print the value in nanoseconds.\n",
    ]
    .concat();
    assert_eq!(help_text(), expected);
    colored::control::unset_override();
}

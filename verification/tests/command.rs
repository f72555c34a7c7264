use kubectl_gateway::command::{contexts_invocation, namespaces_invocation, KubectlCommand};

fn request(command: &str, namespace: &str, context: &str) -> KubectlCommand {
    KubectlCommand {
        context: context.to_string(),
        namespace: namespace.to_string(),
        command: command.to_string(),
    }
}

fn strings(args: &[&str]) -> Vec<String> {
    args.iter().map(|a| a.to_string()).collect()
}

#[test]
fn a_plain_request() {
    let inv = request("get pods", "default", "prod").invocation();
    assert_eq!(inv.program, "kubectl");
    assert_eq!(inv.args, strings(&["get", "pods", "--namespace", "default", "--context", "prod"]));
}

#[test]
fn a_fragment_with_flags() {
    let inv = request("  get pods -o   wide ", "kube-system", "minikube").invocation();
    assert_eq!(
        inv.args,
        strings(&[
            "get",
            "pods",
            "-o",
            "wide",
            "--namespace",
            "kube-system",
            "--context",
            "minikube",
        ])
    );
}

#[test]
fn an_empty_fragment_adds_no_argument() {
    let inv = request("", "default", "prod").invocation();
    assert_eq!(inv.program, "kubectl");
    assert_eq!(inv.args, strings(&["--namespace", "default", "--context", "prod"]));
}

#[test]
fn an_empty_namespace_and_context_are_empty_arguments() {
    let inv = request("get pods", "", "").invocation();
    assert_eq!(inv.args, strings(&["get", "pods", "--namespace", "", "--context", ""]));
}

#[test]
fn shell_metacharacters_in_the_fragment_stay_arguments_of_the_tool() {
    let inv = request("get pods; rm -rf / && echo $(id) | tee `x` > y", "default", "prod")
        .invocation();
    assert_eq!(inv.program, "kubectl");
    assert_eq!(
        inv.args,
        strings(&[
            "get",
            "pods;",
            "rm",
            "-rf",
            "/",
            "&&",
            "echo",
            "$(id)",
            "|",
            "tee",
            "`x`",
            ">",
            "y",
            "--namespace",
            "default",
            "--context",
            "prod",
        ])
    );
}

#[test]
fn shell_metacharacters_in_the_values_stay_inside_one_argument() {
    let inv = request("get pods", "default; rm -rf /", "prod $(reboot)\n'\"").invocation();
    assert_eq!(inv.program, "kubectl");
    assert_eq!(
        inv.args,
        strings(&[
            "get",
            "pods",
            "--namespace",
            "default; rm -rf /",
            "--context",
            "prod $(reboot)\n'\"",
        ])
    );
}

#[test]
fn the_values_close_the_vector_whatever_the_fragment() {
    let fragments = ["", "get", "get pods", "a b c d e", " --context other ", "x;y|z"];
    for fragment in fragments {
        let inv = request(fragment, "n s", "c x").invocation();
        let k = fragment.split_whitespace().count();
        assert_eq!(inv.program, "kubectl");
        assert_eq!(inv.args.len(), k + 4);
        assert_eq!(inv.args[k], "--namespace");
        assert_eq!(inv.args[k + 1], "n s");
        assert_eq!(inv.args[k + 2], "--context");
        assert_eq!(inv.args[k + 3], "c x");
        for word in &inv.args[..k] {
            assert!(!word.is_empty());
            assert!(word.chars().all(|c| !c.is_whitespace()));
        }
    }
}

#[test]
fn other_values_change_two_arguments_and_no_more() {
    let a = request("get pods -o wide", "one", "two").invocation();
    let b = request("get pods -o wide", "three; four", "").invocation();
    assert_eq!(a.program, b.program);
    assert_eq!(a.args.len(), b.args.len());
    for i in 0..a.args.len() {
        if i != 5 && i != 7 {
            assert_eq!(a.args[i], b.args[i]);
        }
    }
}

#[test]
fn listing_the_namespaces_of_a_context() {
    let inv = namespaces_invocation("prod");
    assert_eq!(inv.program, "kubectl");
    assert_eq!(inv.args, strings(&["get", "namespaces", "--context", "prod"]));
}

#[test]
fn listing_the_namespaces_of_an_odd_context() {
    let inv = namespaces_invocation("prod; reboot");
    assert_eq!(inv.args, strings(&["get", "namespaces", "--context", "prod; reboot"]));
    let inv = namespaces_invocation("");
    assert_eq!(inv.args, strings(&["get", "namespaces", "--context", ""]));
}

#[test]
fn listing_the_contexts() {
    let inv = contexts_invocation();
    assert_eq!(inv.program, "kubectl");
    assert_eq!(inv.args, strings(&["config", "get-contexts", "-o", "name"]));
}

use jade::functions::base::install_base_packages;
use jade::step::Step;

fn installed(plan: &[Step]) -> Vec<String> {
    for step in plan {
        if let Step::Exec { program, args, .. } = step {
            if program == "pacstrap" {
                return args[1..].to_vec();
            }
        }
    }
    Vec::new()
}

#[test]
fn print_out() {
    let plan = install_base_packages("", &vec!["base", "linux-firmware", "networkmanager"]);
    let pkg_list = installed(&plan);
    for line in pkg_list {
        println!("{line}")
    }
}

#[test]
fn std_method() {
    let pkg_list = "base\nlinux-firmware\nnetworkmanager\n";
    let packages: Vec<&str> = pkg_list.lines().collect();
    let plan = install_base_packages("linux-lts", &packages);

    for line in installed(&plan) {
        println!("{line}")
    }
}

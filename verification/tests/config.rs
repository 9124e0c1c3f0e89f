use cpf::config::{gl_config_picker, ConfigInfo};

fn config(supports_transparency: Option<bool>, num_samples: u8) -> ConfigInfo {
    ConfigInfo { supports_transparency, num_samples }
}

/// The reduction as it is described: the first is held, and a later one
/// takes its place where it gains transparency or has fewer samples.
fn reduce(configs: &[ConfigInfo]) -> usize {
    let mut held = 0;
    for i in 1..configs.len() {
        let gains = configs[i].supports_transparency.unwrap_or(false)
            & !configs[held].supports_transparency.unwrap_or(false);
        if gains || configs[i].num_samples < configs[held].num_samples {
            held = i;
        }
    }
    held
}

fn next(seed: &mut u32) -> u32 {
    *seed = seed.wrapping_mul(1664525).wrapping_add(1013904223);
    *seed >> 16
}

fn synthetic(seed: &mut u32, len: usize) -> Vec<ConfigInfo> {
    let mut configs = Vec::new();
    for _ in 0..len {
        let transparency = match next(seed) % 3 {
            0 => None,
            1 => Some(false),
            _ => Some(true),
        };
        configs.push(config(transparency, [0u8, 2, 4, 8, 16][(next(seed) % 5) as usize]));
    }
    configs
}

#[test]
fn single_configuration_is_chosen() {
    assert_eq!(gl_config_picker(&vec![config(None, 16)]), 0);
}

#[test]
fn transparency_wins_over_opaque_before_it() {
    let configs = vec![config(Some(false), 0), config(Some(true), 4)];
    assert_eq!(gl_config_picker(&configs), 1);
}

#[test]
fn unknown_transparency_counts_as_opaque() {
    let configs = vec![config(None, 0), config(Some(true), 4)];
    assert_eq!(gl_config_picker(&configs), 1);
    let configs = vec![config(Some(true), 4), config(None, 4)];
    assert_eq!(gl_config_picker(&configs), 0);
}

#[test]
fn fewer_samples_win_among_transparent() {
    let configs = vec![config(Some(true), 8), config(Some(true), 2), config(Some(true), 4)];
    assert_eq!(gl_config_picker(&configs), 1);
}

#[test]
fn first_of_equal_configurations_is_kept() {
    let configs = vec![config(Some(true), 4), config(Some(true), 4), config(Some(true), 4)];
    assert_eq!(gl_config_picker(&configs), 0);
}

#[test]
fn opaque_with_fewer_samples_displaces_transparent() {
    let configs = vec![config(Some(true), 4), config(Some(false), 0)];
    assert_eq!(gl_config_picker(&configs), 1);
}

#[test]
fn later_transparent_displaces_opaque_again() {
    let configs = vec![config(Some(true), 2), config(Some(false), 0), config(Some(true), 8)];
    assert_eq!(gl_config_picker(&configs), 2);
}

#[test]
fn synthetic_sets_follow_the_reduction() {
    let mut seed = 7;
    for round in 0..400 {
        let len = 1 + round % 10;
        let configs = synthetic(&mut seed, len);
        assert_eq!(gl_config_picker(&configs), reduce(&configs));
    }
}

#[test]
fn preference_holds_where_the_order_keeps_it() {
    let mut seed = 99;
    let mut kept = 0;
    for round in 0..400 {
        let len = 1 + round % 10;
        let configs = synthetic(&mut seed, len);
        let transparent = |c: &ConfigInfo| c.supports_transparency == Some(true);
        let any = configs.iter().any(transparent);
        let settles = (0..len).any(|p| {
            transparent(&configs[p])
                && configs.iter().all(|c| !transparent(c) || configs[p].num_samples <= c.num_samples)
                && configs[p + 1..]
                    .iter()
                    .all(|c| transparent(c) || configs[p].num_samples <= c.num_samples)
        });
        let chosen = configs[gl_config_picker(&configs)];
        let preferred = (!any || transparent(&chosen))
            && configs
                .iter()
                .all(|c| transparent(c) != transparent(&chosen) || chosen.num_samples <= c.num_samples);
        assert_eq!(preferred, !any || settles);
        if preferred {
            kept += 1;
        }
    }
    assert!(kept > 0 && kept < 400);
}
